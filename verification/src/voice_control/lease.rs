//! The voice lease: which voice session, if any, owns new human input.

use vstd::prelude::*;
use crate::text::same_text;

verus! {

/// Identity of the session that asks for, holds or releases the lease.
#[derive(Debug, PartialEq, Eq, Hash)]
pub struct VoiceLeaseId(pub String);

impl View for VoiceLeaseId {
    type V = Seq<char>;

    open spec fn view(&self) -> Seq<char> {
        self.0@
    }
}

impl VoiceLeaseId {
    pub fn new(id: &str) -> (lease_id: Self)
        ensures
            lease_id@ == id@,
    {
        VoiceLeaseId(id.to_owned())
    }

    /// Whether both identify the same session.
    pub fn same(&self, other: &VoiceLeaseId) -> (same: bool)
        ensures
            same == (self@ == other@),
    {
        same_text(self.0.as_str(), other.0.as_str())
    }
}

impl Clone for VoiceLeaseId {
    fn clone(&self) -> (copy: Self)
        ensures
            copy == *self,
    {
        VoiceLeaseId(self.0.clone())
    }
}

/// Counts changes of ownership. A value is never issued twice.
#[derive(Clone, Copy, Debug, PartialEq, Eq, Structural)]
pub struct LeaseGeneration(pub u64);

impl LeaseGeneration {
    pub fn initial() -> (generation: Self)
        ensures
            generation == LeaseGeneration(0),
    {
        LeaseGeneration(0)
    }

    /// The following generation, or nothing once the counter is used up.
    pub fn next(self) -> (next: Option<Self>)
        ensures
            next == successor(self),
    {
        match self.0.checked_add(1) {
            Some(value) => Some(LeaseGeneration(value)),
            None => None,
        }
    }
}

pub open spec fn successor(generation: LeaseGeneration) -> Option<LeaseGeneration> {
    if generation.0 < u64::MAX {
        Some(LeaseGeneration((generation.0 + 1) as u64))
    } else {
        None
    }
}

#[derive(Clone, Debug, PartialEq, Eq)]
pub enum VoiceLeaseState {
    Free,
    Acquiring { lease_id: VoiceLeaseId },
    Active { lease_id: VoiceLeaseId },
    Closing { lease_id: VoiceLeaseId },
    RecoveryRequired { lease_id: Option<VoiceLeaseId> },
}

#[derive(Clone, Copy, Debug, PartialEq, Eq, Structural)]
pub enum VoiceLeaseTransitionError {
    NotFree,
    WrongState,
    WrongOwner,
    GenerationExhausted,
}

impl VoiceLeaseTransitionError {
    pub fn message(self) -> (text: &'static str)
        ensures
            text@ == (match self {
                VoiceLeaseTransitionError::NotFree => "voice lease is not free"@,
                VoiceLeaseTransitionError::WrongState =>
                    "voice lease is in the wrong state for this transition"@,
                VoiceLeaseTransitionError::WrongOwner => "voice lease is owned by another session"@,
                VoiceLeaseTransitionError::GenerationExhausted => "voice lease generation exhausted"@,
            }),
    {
        match self {
            VoiceLeaseTransitionError::NotFree => "voice lease is not free",
            VoiceLeaseTransitionError::WrongState =>
                "voice lease is in the wrong state for this transition",
            VoiceLeaseTransitionError::WrongOwner => "voice lease is owned by another session",
            VoiceLeaseTransitionError::GenerationExhausted => "voice lease generation exhausted",
        }
    }
}

/// The phase a transition starts from.
#[derive(Clone, Copy, Debug, PartialEq, Eq, Structural)]
pub enum LeasePhase {
    Acquiring,
    Active,
    Closing,
}

/// The state of a lease, with owners as text.
pub enum LeaseStateModel {
    Free,
    Acquiring(Seq<char>),
    Active(Seq<char>),
    Closing(Seq<char>),
    RecoveryRequired(Option<Seq<char>>),
}

/// What a [`VoiceLease`] stands for.
pub struct LeaseModel {
    pub state: LeaseStateModel,
    pub generation: LeaseGeneration,
    pub exhausted: bool,
}

impl View for VoiceLeaseState {
    type V = LeaseStateModel;

    open spec fn view(&self) -> LeaseStateModel {
        match *self {
            VoiceLeaseState::Free => LeaseStateModel::Free,
            VoiceLeaseState::Acquiring { lease_id } => LeaseStateModel::Acquiring(lease_id@),
            VoiceLeaseState::Active { lease_id } => LeaseStateModel::Active(lease_id@),
            VoiceLeaseState::Closing { lease_id } => LeaseStateModel::Closing(lease_id@),
            VoiceLeaseState::RecoveryRequired { lease_id } => LeaseStateModel::RecoveryRequired(
                opt_lease_id(lease_id),
            ),
        }
    }
}

pub open spec fn opt_lease_id(lease_id: Option<VoiceLeaseId>) -> Option<Seq<char>> {
    match lease_id {
        Some(id) => Some(id@),
        None => None,
    }
}

impl LeaseStateModel {
    /// The session that the lease was last bound to, if any.
    pub open spec fn owner(self) -> Option<Seq<char>> {
        match self {
            LeaseStateModel::Free => None,
            LeaseStateModel::Acquiring(id) => Some(id),
            LeaseStateModel::Active(id) => Some(id),
            LeaseStateModel::Closing(id) => Some(id),
            LeaseStateModel::RecoveryRequired(id) => id,
        }
    }

    /// Whether `id` may advance a lease that has to be in `phase`.
    pub open spec fn owned_in(self, id: Seq<char>, phase: LeasePhase) -> Result<
        (),
        VoiceLeaseTransitionError,
    > {
        let in_phase = match phase {
            LeasePhase::Acquiring => self is Acquiring,
            LeasePhase::Active => self is Active,
            LeasePhase::Closing => self is Closing,
        };
        if !in_phase {
            Err(VoiceLeaseTransitionError::WrongState)
        } else if self.owner() != Some(id) {
            Err(VoiceLeaseTransitionError::WrongOwner)
        } else {
            Ok(())
        }
    }
}

impl LeaseModel {
    /// A lease nobody has held yet.
    pub open spec fn initial() -> LeaseModel {
        LeaseModel {
            state: LeaseStateModel::Free,
            generation: LeaseGeneration(0),
            exhausted: false,
        }
    }

    /// A lease that ran out of generations stays in recovery.
    pub open spec fn wf(self) -> bool {
        self.exhausted ==> self.state is RecoveryRequired
    }

    pub open spec fn current_generation(self) -> Result<LeaseGeneration, VoiceLeaseTransitionError> {
        if self.exhausted {
            Err(VoiceLeaseTransitionError::GenerationExhausted)
        } else {
            Ok(self.generation)
        }
    }

    /// Moves to `state` under a fresh generation, or into recovery bound to `fallback` when no
    /// generation is left.
    pub open spec fn change_owner(
        self,
        state: LeaseStateModel,
        fallback: Option<Seq<char>>,
    ) -> (LeaseModel, Result<LeaseGeneration, VoiceLeaseTransitionError>) {
        match successor(self.generation) {
            Some(generation) => (LeaseModel { state, generation, ..self }, Ok(generation)),
            None => (
                LeaseModel {
                    state: LeaseStateModel::RecoveryRequired(fallback),
                    exhausted: true,
                    ..self
                },
                Err(VoiceLeaseTransitionError::GenerationExhausted),
            ),
        }
    }

    pub open spec fn begin_acquire(self, id: Seq<char>) -> (
        LeaseModel,
        Result<LeaseGeneration, VoiceLeaseTransitionError>,
    ) {
        if self.state is Free {
            self.change_owner(LeaseStateModel::Acquiring(id), None)
        } else {
            (self, Err(VoiceLeaseTransitionError::NotFree))
        }
    }

    pub open spec fn activate(self, id: Seq<char>) -> (
        LeaseModel,
        Result<(), VoiceLeaseTransitionError>,
    ) {
        match self.state.owned_in(id, LeasePhase::Acquiring) {
            Ok(_) => (LeaseModel { state: LeaseStateModel::Active(id), ..self }, Ok(())),
            Err(error) => (self, Err(error)),
        }
    }

    pub open spec fn begin_close(self, id: Seq<char>) -> (
        LeaseModel,
        Result<(), VoiceLeaseTransitionError>,
    ) {
        match self.state.owned_in(id, LeasePhase::Active) {
            Ok(_) => (LeaseModel { state: LeaseStateModel::Closing(id), ..self }, Ok(())),
            Err(error) => (self, Err(error)),
        }
    }

    pub open spec fn finish_close(self, id: Seq<char>) -> (
        LeaseModel,
        Result<(), VoiceLeaseTransitionError>,
    ) {
        match self.state.owned_in(id, LeasePhase::Closing) {
            Ok(_) => {
                let (next, outcome) = self.change_owner(LeaseStateModel::Free, Some(id));
                (
                    next,
                    match outcome {
                        Ok(_) => Ok(()),
                        Err(error) => Err(error),
                    },
                )
            },
            Err(error) => (self, Err(error)),
        }
    }

    pub open spec fn mark_recovery_required(self) -> (
        LeaseModel,
        Result<(), VoiceLeaseTransitionError>,
    ) {
        let owner = self.state.owner();
        let (next, outcome) = self.change_owner(LeaseStateModel::RecoveryRequired(owner), owner);
        (
            next,
            match outcome {
                Ok(_) => Ok(()),
                Err(error) => Err(error),
            },
        )
    }
}

/// In-memory authority over new human input for one session.
///
/// Ambiguous loss of ownership evidence leads to [`VoiceLeaseState::RecoveryRequired`], never to
/// [`VoiceLeaseState::Free`].
#[derive(Clone, Debug, PartialEq, Eq)]
pub struct VoiceLease {
    pub state: VoiceLeaseState,
    pub generation: LeaseGeneration,
    pub generation_exhausted: bool,
}

impl View for VoiceLease {
    type V = LeaseModel;

    open spec fn view(&self) -> LeaseModel {
        LeaseModel {
            state: self.state@,
            generation: self.generation,
            exhausted: self.generation_exhausted,
        }
    }
}

impl Default for VoiceLease {
    fn default() -> (lease: Self)
        ensures
            lease@ == LeaseModel::initial(),
    {
        VoiceLease {
            state: VoiceLeaseState::Free,
            generation: LeaseGeneration::initial(),
            generation_exhausted: false,
        }
    }
}

impl VoiceLease {
    pub fn state(&self) -> (state: &VoiceLeaseState)
        ensures
            *state == self.state,
    {
        &self.state
    }

    pub fn generation(&self) -> (generation: Result<LeaseGeneration, VoiceLeaseTransitionError>)
        ensures
            generation == self@.current_generation(),
    {
        if self.generation_exhausted {
            Err(VoiceLeaseTransitionError::GenerationExhausted)
        } else {
            Ok(self.generation)
        }
    }

    /// Starts an acquisition of a free lease for `lease_id`.
    pub fn begin_acquire(&mut self, lease_id: VoiceLeaseId) -> (outcome: Result<
        LeaseGeneration,
        VoiceLeaseTransitionError,
    >)
        ensures
            (final(self)@, outcome) == old(self)@.begin_acquire(lease_id@),
    {
        match self.state {
            VoiceLeaseState::Free => {},
            _ => {
                return Err(VoiceLeaseTransitionError::NotFree);
            },
        }
        match self.next_generation(None) {
            Ok(generation) => {
                self.generation = generation;
                self.state = VoiceLeaseState::Acquiring { lease_id };
                Ok(generation)
            },
            Err(error) => Err(error),
        }
    }

    /// Completes the owner's acquisition.
    pub fn activate(&mut self, lease_id: &VoiceLeaseId) -> (outcome: Result<
        (),
        VoiceLeaseTransitionError,
    >)
        ensures
            (final(self)@, outcome) == old(self)@.activate(lease_id@),
    {
        match self.require_owner(lease_id, LeasePhase::Acquiring) {
            Ok(()) => {
                self.state = VoiceLeaseState::Active { lease_id: lease_id.clone() };
                Ok(())
            },
            Err(error) => Err(error),
        }
    }

    /// Starts the owner's release of an active lease.
    pub fn begin_close(&mut self, lease_id: &VoiceLeaseId) -> (outcome: Result<
        (),
        VoiceLeaseTransitionError,
    >)
        ensures
            (final(self)@, outcome) == old(self)@.begin_close(lease_id@),
    {
        match self.require_owner(lease_id, LeasePhase::Active) {
            Ok(()) => {
                self.state = VoiceLeaseState::Closing { lease_id: lease_id.clone() };
                Ok(())
            },
            Err(error) => Err(error),
        }
    }

    /// Frees the lease once the owner's release is complete.
    pub fn finish_close(&mut self, lease_id: &VoiceLeaseId) -> (outcome: Result<
        (),
        VoiceLeaseTransitionError,
    >)
        ensures
            (final(self)@, outcome) == old(self)@.finish_close(lease_id@),
    {
        match self.require_owner(lease_id, LeasePhase::Closing) {
            Ok(()) => {},
            Err(error) => {
                return Err(error);
            },
        }
        match self.next_generation(Some(lease_id.clone())) {
            Ok(generation) => {
                self.generation = generation;
                self.state = VoiceLeaseState::Free;
                Ok(())
            },
            Err(error) => Err(error),
        }
    }

    /// Records that ownership can no longer be proved.
    pub fn mark_recovery_required(&mut self) -> (outcome: Result<(), VoiceLeaseTransitionError>)
        ensures
            (final(self)@, outcome) == old(self)@.mark_recovery_required(),
    {
        let lease_id = match &self.state {
            VoiceLeaseState::Free => None,
            VoiceLeaseState::Acquiring { lease_id } => Some(lease_id.clone()),
            VoiceLeaseState::Active { lease_id } => Some(lease_id.clone()),
            VoiceLeaseState::Closing { lease_id } => Some(lease_id.clone()),
            VoiceLeaseState::RecoveryRequired { lease_id } => lease_id.clone(),
        };
        match self.next_generation(lease_id.clone()) {
            Ok(generation) => {
                self.generation = generation;
                self.state = VoiceLeaseState::RecoveryRequired { lease_id };
                Ok(())
            },
            Err(error) => Err(error),
        }
    }

    /// The generation for the next change of ownership. Without one, the lease is exhausted and
    /// requires recovery bound to `lease_id`.
    pub fn next_generation(&mut self, lease_id: Option<VoiceLeaseId>) -> (outcome: Result<
        LeaseGeneration,
        VoiceLeaseTransitionError,
    >)
        ensures
            match successor(old(self).generation) {
                Some(generation) => outcome == Ok::<_, VoiceLeaseTransitionError>(generation)
                    && *final(self) == *old(self),
                None => {
                    &&& outcome == Err::<LeaseGeneration, _>(
                        VoiceLeaseTransitionError::GenerationExhausted,
                    )
                    &&& final(self)@ == old(self)@.change_owner(
                        LeaseStateModel::Free,
                        opt_lease_id(lease_id),
                    ).0
                },
            },
    {
        match self.generation.next() {
            Some(generation) => Ok(generation),
            None => {
                self.generation_exhausted = true;
                self.state = VoiceLeaseState::RecoveryRequired { lease_id };
                Err(VoiceLeaseTransitionError::GenerationExhausted)
            },
        }
    }

    /// Whether `lease_id` owns the lease in `phase`.
    pub fn require_owner(&self, lease_id: &VoiceLeaseId, phase: LeasePhase) -> (outcome: Result<
        (),
        VoiceLeaseTransitionError,
    >)
        ensures
            outcome == self@.state.owned_in(lease_id@, phase),
    {
        let actual = match (&self.state, phase) {
            (VoiceLeaseState::Acquiring { lease_id }, LeasePhase::Acquiring) => lease_id,
            (VoiceLeaseState::Active { lease_id }, LeasePhase::Active) => lease_id,
            (VoiceLeaseState::Closing { lease_id }, LeasePhase::Closing) => lease_id,
            _ => {
                return Err(VoiceLeaseTransitionError::WrongState);
            },
        };
        if actual.same(lease_id) {
            Ok(())
        } else {
            Err(VoiceLeaseTransitionError::WrongOwner)
        }
    }
}

} // verus!
