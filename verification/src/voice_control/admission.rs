//! Admission of input: tickets, the effect boundary and the fences around both.

use std::collections::HashMap;
use vstd::prelude::*;
use crate::text::same_text;
use crate::voice_control::lease::{
    opt_lease_id, LeaseGeneration, LeaseModel, LeaseStateModel, VoiceLease, VoiceLeaseId,
    VoiceLeaseState, VoiceLeaseTransitionError,
};
use crate::voice_control::provenance::{
    class_of_origin, InputClass, InputProvenance, SubmissionAuthority,
};

verus! {

broadcast use vstd::std_specs::hash::group_hash_axioms;

/// Counts returns to idle. A ticket is good for the epoch it was issued in.
#[derive(Clone, Copy, Debug, PartialEq, Eq, Structural)]
pub struct IdleEpoch(pub u64);

impl IdleEpoch {
    /// The following epoch, or nothing once the counter is used up.
    pub fn next(self) -> (next: Option<Self>)
        ensures
            next == next_epoch(self),
    {
        match self.0.checked_add(1) {
            Some(value) => Some(IdleEpoch(value)),
            None => None,
        }
    }
}

pub open spec fn next_epoch(epoch: IdleEpoch) -> Option<IdleEpoch> {
    if epoch.0 < u64::MAX {
        Some(IdleEpoch((epoch.0 + 1) as u64))
    } else {
        None
    }
}

#[derive(Clone, Copy, Debug, PartialEq, Eq, Structural)]
pub enum CommitmentState {
    Prepared,
    Committing,
}

/// A request to submit input.
#[derive(Clone, Debug, PartialEq, Eq)]
pub struct AdmissionRequest {
    pub provenance: InputProvenance,
    pub authority: SubmissionAuthority,
    pub voice_lease_id: Option<VoiceLeaseId>,
}

/// What admits an input.
#[derive(Debug, PartialEq, Eq)]
pub enum AdmissionPermit {
    UpstreamBaseline,
    Voice { lease_id: VoiceLeaseId },
    NonHumanInput,
}

/// A permit, with the lease owner as text.
pub enum PermitModel {
    UpstreamBaseline,
    Voice(Seq<char>),
    NonHumanInput,
}

impl View for AdmissionPermit {
    type V = PermitModel;

    open spec fn view(&self) -> PermitModel {
        match *self {
            AdmissionPermit::UpstreamBaseline => PermitModel::UpstreamBaseline,
            AdmissionPermit::Voice { lease_id } => PermitModel::Voice(lease_id@),
            AdmissionPermit::NonHumanInput => PermitModel::NonHumanInput,
        }
    }
}

/// A prepared submission. It is consumed at the effect boundary, where it is checked again.
#[derive(Debug)]
pub struct AdmissionTicket {
    lease_generation: LeaseGeneration,
    idle_epoch: IdleEpoch,
    permit: AdmissionPermit,
    commitment: CommitmentState,
    expires_at: u64,
}

/// What an [`AdmissionTicket`] stands for.
pub struct TicketModel {
    pub lease_generation: LeaseGeneration,
    pub idle_epoch: IdleEpoch,
    pub permit: PermitModel,
    pub commitment: CommitmentState,
    pub expires_at: u64,
}

impl View for AdmissionTicket {
    type V = TicketModel;

    closed spec fn view(&self) -> TicketModel {
        TicketModel {
            lease_generation: self.lease_generation,
            idle_epoch: self.idle_epoch,
            permit: self.permit@,
            commitment: self.commitment,
            expires_at: self.expires_at,
        }
    }
}

impl AdmissionTicket {
    pub fn commitment(&self) -> (commitment: CommitmentState)
        ensures
            commitment == self@.commitment,
    {
        self.commitment
    }
}

/// Handle of a delivery that has begun and is not resolved yet.
#[derive(Clone, Debug, PartialEq, Eq)]
pub struct EffectBoundary {
    operation_id: u64,
    lease_generation: LeaseGeneration,
}

/// What an [`EffectBoundary`] stands for.
pub struct BoundaryModel {
    pub operation_id: u64,
    pub lease_generation: LeaseGeneration,
}

impl View for EffectBoundary {
    type V = BoundaryModel;

    closed spec fn view(&self) -> BoundaryModel {
        BoundaryModel {
            operation_id: self.operation_id,
            lease_generation: self.lease_generation,
        }
    }
}

impl EffectBoundary {
    pub fn commitment(&self) -> (commitment: CommitmentState)
        ensures
            commitment == CommitmentState::Committing,
    {
        CommitmentState::Committing
    }
}

#[derive(Clone, Copy, Debug, PartialEq, Eq, Structural)]
pub enum EffectOperationState {
    Committing,
    Unknown,
}

#[derive(Clone, Copy, Debug, PartialEq, Eq, Structural)]
pub struct EffectOperation {
    pub lease_generation: LeaseGeneration,
    pub state: EffectOperationState,
}

#[derive(Clone, Copy, Debug, PartialEq, Eq, Structural)]
pub enum SubmissionResolution {
    NotSubmitted(NotSubmittedReason),
    KnownResult,
    UnknownResult,
}

#[derive(Clone, Copy, Debug, PartialEq, Eq, Structural)]
pub enum NotSubmittedReason {
    Busy,
    PermissionDenied,
    StaleGeneration,
    StaleIdleEpoch,
    Stopping,
    TicketExpired,
    FencingExhausted,
}

#[derive(Clone, Copy, Debug, PartialEq, Eq, Structural)]
pub enum BeginStoppingError {
    AlreadyStopping,
    GenerationExhausted,
}

#[derive(Clone, Copy, Debug, PartialEq, Eq, Structural)]
pub enum BeginLeaseAcquireError {
    Busy,
    Stopping,
    FencingExhausted,
    EffectInFlight,
    RecoveryRequired,
    LeaseTransition(VoiceLeaseTransitionError),
}

#[derive(Clone, Copy, Debug, PartialEq, Eq, Structural)]
pub enum FinishLeaseCloseError {
    ActiveTurn,
    Stopping,
    EffectInFlight,
    RecoveryRequired,
    FencingExhausted,
    LeaseTransition(VoiceLeaseTransitionError),
}

#[derive(Clone, Copy, Debug, PartialEq, Eq, Structural)]
pub enum ResolveEffectError {
    UnknownOperation,
    StaleGeneration,
    AlreadyResolved,
    FencingExhausted,
}

#[derive(Clone, Copy, Debug, PartialEq, Eq, Structural)]
pub enum FencingError {
    GenerationExhausted,
}

/// Marks the turn that is being stopped.
#[derive(Clone, Debug, PartialEq, Eq)]
pub struct StoppingFence {
    pub turn_id: String,
    pub generation: u64,
}

/// A stopping fence, with the turn as text.
pub struct FenceModel {
    pub turn_id: Seq<char>,
    pub generation: u64,
}

pub open spec fn fence_model(fence: Option<StoppingFence>) -> Option<FenceModel> {
    match fence {
        Some(fence) => Some(
            FenceModel { turn_id: fence.turn_id@, generation: fence.generation },
        ),
        None => None,
    }
}

/// The permit that a request obtains while the lease is in `lease`.
///
/// Origin and authority have to name the same party. Non-human input does not depend on the
/// lease, input of external or unknown origin needs the lease to be free, and voice input needs
/// it to be active in the name that the request gives.
pub open spec fn authorized(
    lease: LeaseStateModel,
    provenance: InputProvenance,
    authority: SubmissionAuthority,
    voice_lease_id: Option<Seq<char>>,
) -> Result<PermitModel, NotSubmittedReason> {
    match (class_of_origin(provenance.origin), authority) {
        (InputClass::CorrelatedResponse, SubmissionAuthority::CorrelatedResponse)
        | (InputClass::InternalAgent, SubmissionAuthority::InternalAgent)
        | (InputClass::SystemContinuation, SubmissionAuthority::System) => Ok(
            PermitModel::NonHumanInput,
        ),
        (InputClass::ExternalHuman, SubmissionAuthority::ExternalClient)
        | (InputClass::Unknown, SubmissionAuthority::Unknown) => if lease is Free {
            Ok(PermitModel::UpstreamBaseline)
        } else {
            Err(NotSubmittedReason::PermissionDenied)
        },
        (InputClass::VoiceHuman, SubmissionAuthority::Voice) => if lease is Active && lease.owner()
            == voice_lease_id {
            Ok(PermitModel::Voice(voice_lease_id->0))
        } else {
            Err(NotSubmittedReason::PermissionDenied)
        },
        _ => Err(NotSubmittedReason::PermissionDenied),
    }
}

/// Whether a permit obtained earlier still stands while the lease is in `lease`.
pub open spec fn permit_stands(permit: PermitModel, lease: LeaseStateModel) -> bool {
    match permit {
        PermitModel::UpstreamBaseline => lease is Free,
        PermitModel::Voice(id) => lease == LeaseStateModel::Active(id),
        PermitModel::NonHumanInput => true,
    }
}

/// The end of a ticket's life, which is its start where the clock cannot represent the end.
pub open spec fn expiry(now: u64, ttl: u64) -> u64 {
    if now + ttl <= u64::MAX {
        (now + ttl) as u64
    } else {
        now
    }
}

/// What an [`AdmissionState`] stands for.
pub struct AdmissionModel {
    pub lease: LeaseModel,
    pub idle_epoch: IdleEpoch,
    pub stopping: Option<FenceModel>,
    pub stopping_generation: u64,
    pub fencing_exhausted: bool,
    pub next_effect_operation_id: u64,
    pub effects: Map<u64, EffectOperation>,
}

impl AdmissionModel {
    pub open spec fn initial() -> AdmissionModel {
        AdmissionModel {
            lease: LeaseModel::initial(),
            idle_epoch: IdleEpoch(0),
            stopping: None,
            stopping_generation: 0,
            fencing_exhausted: false,
            next_effect_operation_id: 0,
            effects: Map::empty(),
        }
    }

    /// Operation numbers were all issued by the counter, a stopping fence by the stopping
    /// counter, the lease is well formed, and it is in recovery while a result is unknown.
    pub open spec fn wf(self) -> bool {
        &&& self.lease.wf()
        &&& forall|id: u64| #[trigger]
            self.effects.contains_key(id) ==> id <= self.next_effect_operation_id
        &&& self.stopping matches Some(fence) ==> fence.generation <= self.stopping_generation
        &&& self.has_unknown_effect() ==> self.lease.state is RecoveryRequired
    }

    pub open spec fn has_unknown_effect(self) -> bool {
        exists|id: u64| #[trigger]
            self.effects.contains_key(id) && self.effects[id].state is Unknown
    }

    pub open spec fn begin_lease_acquire(self, busy: bool, id: Seq<char>) -> (
        AdmissionModel,
        Result<LeaseGeneration, BeginLeaseAcquireError>,
    ) {
        if busy {
            (self, Err(BeginLeaseAcquireError::Busy))
        } else if self.stopping is Some {
            (self, Err(BeginLeaseAcquireError::Stopping))
        } else if self.fencing_exhausted {
            (self, Err(BeginLeaseAcquireError::FencingExhausted))
        } else if self.has_unknown_effect() {
            (self, Err(BeginLeaseAcquireError::RecoveryRequired))
        } else if self.effects != Map::<u64, EffectOperation>::empty() {
            (self, Err(BeginLeaseAcquireError::EffectInFlight))
        } else {
            let (lease, outcome) = self.lease.begin_acquire(id);
            (
                AdmissionModel { lease, ..self },
                match outcome {
                    Ok(generation) => Ok(generation),
                    Err(error) => Err(BeginLeaseAcquireError::LeaseTransition(error)),
                },
            )
        }
    }

    pub open spec fn activate_lease(self, id: Seq<char>) -> (
        AdmissionModel,
        Result<(), VoiceLeaseTransitionError>,
    ) {
        let (lease, outcome) = self.lease.activate(id);
        (AdmissionModel { lease, ..self }, outcome)
    }

    pub open spec fn begin_lease_close(self, id: Seq<char>) -> (
        AdmissionModel,
        Result<(), VoiceLeaseTransitionError>,
    ) {
        let (lease, outcome) = self.lease.begin_close(id);
        (AdmissionModel { lease, ..self }, outcome)
    }

    pub open spec fn finish_lease_close(self, busy: bool, id: Seq<char>) -> (
        AdmissionModel,
        Result<(), FinishLeaseCloseError>,
    ) {
        if busy {
            (self, Err(FinishLeaseCloseError::ActiveTurn))
        } else if self.stopping is Some {
            (self, Err(FinishLeaseCloseError::Stopping))
        } else if self.fencing_exhausted {
            (self, Err(FinishLeaseCloseError::FencingExhausted))
        } else if self.has_unknown_effect() {
            (self, Err(FinishLeaseCloseError::RecoveryRequired))
        } else if self.effects != Map::<u64, EffectOperation>::empty() {
            (self, Err(FinishLeaseCloseError::EffectInFlight))
        } else {
            let (lease, outcome) = self.lease.finish_close(id);
            (
                AdmissionModel { lease, ..self },
                match outcome {
                    Ok(_) => Ok(()),
                    Err(error) => Err(FinishLeaseCloseError::LeaseTransition(error)),
                },
            )
        }
    }

    pub open spec fn issue_ticket(
        self,
        busy: bool,
        provenance: InputProvenance,
        authority: SubmissionAuthority,
        voice_lease_id: Option<Seq<char>>,
        now: u64,
        ttl: u64,
    ) -> Result<TicketModel, NotSubmittedReason> {
        if busy {
            Err(NotSubmittedReason::Busy)
        } else if self.stopping is Some {
            Err(NotSubmittedReason::Stopping)
        } else if self.fencing_exhausted {
            Err(NotSubmittedReason::FencingExhausted)
        } else {
            match authorized(self.lease.state, provenance, authority, voice_lease_id) {
                Err(reason) => Err(reason),
                Ok(permit) => match self.lease.current_generation() {
                    Err(_) => Err(NotSubmittedReason::FencingExhausted),
                    Ok(lease_generation) => Ok(
                        TicketModel {
                            lease_generation,
                            idle_epoch: self.idle_epoch,
                            permit,
                            commitment: CommitmentState::Prepared,
                            expires_at: expiry(now, ttl),
                        },
                    ),
                },
            }
        }
    }

    pub open spec fn enter_effect_boundary(self, busy: bool, ticket: TicketModel, now: u64) -> (
        AdmissionModel,
        Result<BoundaryModel, NotSubmittedReason>,
    ) {
        if now >= ticket.expires_at {
            (self, Err(NotSubmittedReason::TicketExpired))
        } else if busy {
            (self, Err(NotSubmittedReason::Busy))
        } else if self.stopping is Some {
            (self, Err(NotSubmittedReason::Stopping))
        } else if self.fencing_exhausted || self.lease.exhausted {
            (self, Err(NotSubmittedReason::FencingExhausted))
        } else if ticket.lease_generation != self.lease.generation || !permit_stands(
            ticket.permit,
            self.lease.state,
        ) {
            (self, Err(NotSubmittedReason::StaleGeneration))
        } else if ticket.idle_epoch != self.idle_epoch {
            (self, Err(NotSubmittedReason::StaleIdleEpoch))
        } else if self.next_effect_operation_id == u64::MAX {
            (
                AdmissionModel { fencing_exhausted: true, ..self },
                Err(NotSubmittedReason::FencingExhausted),
            )
        } else {
            let operation_id = (self.next_effect_operation_id + 1) as u64;
            let operation = EffectOperation {
                lease_generation: self.lease.generation,
                state: EffectOperationState::Committing,
            };
            (
                AdmissionModel {
                    next_effect_operation_id: operation_id,
                    effects: self.effects.insert(operation_id, operation),
                    ..self
                },
                Ok(BoundaryModel { operation_id, lease_generation: self.lease.generation }),
            )
        }
    }

    /// Whether the operation behind `boundary` is open under the boundary's generation.
    pub open spec fn resolvable(self, boundary: BoundaryModel) -> Result<(), ResolveEffectError> {
        if !self.effects.contains_key(boundary.operation_id) {
            Err(ResolveEffectError::UnknownOperation)
        } else if self.effects[boundary.operation_id].state is Unknown {
            Err(ResolveEffectError::AlreadyResolved)
        } else if self.effects[boundary.operation_id].lease_generation
            != boundary.lease_generation {
            Err(ResolveEffectError::StaleGeneration)
        } else {
            Ok(())
        }
    }

    pub open spec fn resolve_effect_known(self, boundary: BoundaryModel) -> (
        AdmissionModel,
        Result<SubmissionResolution, ResolveEffectError>,
    ) {
        match self.resolvable(boundary) {
            Err(error) => (self, Err(error)),
            Ok(_) => (
                AdmissionModel { effects: self.effects.remove(boundary.operation_id), ..self },
                Ok(SubmissionResolution::KnownResult),
            ),
        }
    }

    pub open spec fn resolve_effect_unknown(self, boundary: BoundaryModel) -> (
        AdmissionModel,
        Result<SubmissionResolution, ResolveEffectError>,
    ) {
        match self.resolvable(boundary) {
            Err(error) => (self, Err(error)),
            Ok(_) => {
                let operation = EffectOperation {
                    state: EffectOperationState::Unknown,
                    ..self.effects[boundary.operation_id]
                };
                let effects = self.effects.insert(boundary.operation_id, operation);
                let (lease, outcome) = self.lease.mark_recovery_required();
                match outcome {
                    Ok(_) => (
                        AdmissionModel { lease, effects, ..self },
                        Ok(SubmissionResolution::UnknownResult),
                    ),
                    Err(_) => (
                        AdmissionModel { lease, effects, fencing_exhausted: true, ..self },
                        Err(ResolveEffectError::FencingExhausted),
                    ),
                }
            },
        }
    }

    pub open spec fn record_idle_transition(self) -> (AdmissionModel, Result<(), FencingError>) {
        match next_epoch(self.idle_epoch) {
            Some(idle_epoch) => (AdmissionModel { idle_epoch, ..self }, Ok(())),
            None => (
                AdmissionModel { fencing_exhausted: true, ..self },
                Err(FencingError::GenerationExhausted),
            ),
        }
    }

    pub open spec fn begin_stopping(self, turn_id: Seq<char>) -> (
        AdmissionModel,
        Result<u64, BeginStoppingError>,
    ) {
        if self.stopping is Some {
            (self, Err(BeginStoppingError::AlreadyStopping))
        } else if self.stopping_generation == u64::MAX {
            (
                AdmissionModel { fencing_exhausted: true, ..self },
                Err(BeginStoppingError::GenerationExhausted),
            )
        } else {
            let generation = (self.stopping_generation + 1) as u64;
            (
                AdmissionModel {
                    stopping_generation: generation,
                    stopping: Some(FenceModel { turn_id, generation }),
                    ..self
                },
                Ok(generation),
            )
        }
    }

    pub open spec fn finish_stopping(self, busy: bool, turn_id: Seq<char>, generation: u64) -> (
        AdmissionModel,
        bool,
    ) {
        if busy || self.stopping != Some(FenceModel { turn_id, generation }) {
            (self, false)
        } else {
            match next_epoch(self.idle_epoch) {
                Some(idle_epoch) => (AdmissionModel { stopping: None, idle_epoch, ..self }, true),
                None => (AdmissionModel { fencing_exhausted: true, ..self }, false),
            }
        }
    }
}

/// The fences and the lease that admission is decided on.
#[derive(Debug)]
pub struct AdmissionState {
    pub lease: VoiceLease,
    pub idle_epoch: IdleEpoch,
    pub stopping: Option<StoppingFence>,
    pub stopping_generation: u64,
    pub fencing_exhausted: bool,
    pub next_effect_operation_id: u64,
    pub effect_operations: HashMap<u64, EffectOperation>,
}

impl View for AdmissionState {
    type V = AdmissionModel;

    open spec fn view(&self) -> AdmissionModel {
        AdmissionModel {
            lease: self.lease@,
            idle_epoch: self.idle_epoch,
            stopping: fence_model(self.stopping),
            stopping_generation: self.stopping_generation,
            fencing_exhausted: self.fencing_exhausted,
            next_effect_operation_id: self.next_effect_operation_id,
            effects: self.effect_operations@,
        }
    }
}

impl AdmissionState {
    /// Whether the result of some delivery is unknown.
    pub fn has_unknown_effect(&self) -> (unknown: bool)
        ensures
            unknown == self@.has_unknown_effect(),
    {
        for operation in it: self.effect_operations.values()
            invariant
                it.seq().unref().to_set() == self.effect_operations@.values(),
                forall|i: int|
                    0 <= i < it.index() ==> !((#[trigger] it.seq()[i]).state is Unknown),
        {
            if operation.state == EffectOperationState::Unknown {
                assert(it.seq().unref()[it.index() as int] == *operation);
                assert(self.effect_operations@.values().contains(*operation));
                return true;
            }
        }
        assert(!self@.has_unknown_effect()) by {
            if self@.has_unknown_effect() {
                let id = choose|id: u64| #[trigger]
                    self.effect_operations@.contains_key(id)
                        && self.effect_operations@[id].state is Unknown;
                assert(self.effect_operations@.values().contains(self.effect_operations@[id]));
            }
        }
        false
    }

    /// Whether the delivery behind `boundary` can still be resolved.
    pub fn resolve_effect(&self, boundary: &EffectBoundary) -> (outcome: Result<
        (),
        ResolveEffectError,
    >)
        ensures
            outcome == self@.resolvable(boundary@),
    {
        match self.effect_operations.get(&boundary.operation_id) {
            None => Err(ResolveEffectError::UnknownOperation),
            Some(operation) => {
                if operation.state == EffectOperationState::Unknown {
                    Err(ResolveEffectError::AlreadyResolved)
                } else if operation.lease_generation != boundary.lease_generation {
                    Err(ResolveEffectError::StaleGeneration)
                } else {
                    Ok(())
                }
            },
        }
    }

    /// The permit for a request, under the present lease.
    pub fn authorize(&self, request: &AdmissionRequest) -> (outcome: Result<
        AdmissionPermit,
        NotSubmittedReason,
    >)
        ensures
            match outcome {
                Ok(permit) => authorized(
                    self@.lease.state,
                    request.provenance,
                    request.authority,
                    opt_lease_id(request.voice_lease_id),
                ) == Ok::<_, NotSubmittedReason>(permit@),
                Err(reason) => authorized(
                    self@.lease.state,
                    request.provenance,
                    request.authority,
                    opt_lease_id(request.voice_lease_id),
                ) == Err::<PermitModel, _>(reason),
            },
    {
        match (request.provenance.input_class(), request.authority) {
            (InputClass::CorrelatedResponse, SubmissionAuthority::CorrelatedResponse)
            | (InputClass::InternalAgent, SubmissionAuthority::InternalAgent)
            | (InputClass::SystemContinuation, SubmissionAuthority::System) => Ok(
                AdmissionPermit::NonHumanInput,
            ),
            (InputClass::ExternalHuman, SubmissionAuthority::ExternalClient)
            | (InputClass::Unknown, SubmissionAuthority::Unknown) => match self.lease.state() {
                VoiceLeaseState::Free => Ok(AdmissionPermit::UpstreamBaseline),
                _ => Err(NotSubmittedReason::PermissionDenied),
            },
            (InputClass::VoiceHuman, SubmissionAuthority::Voice) => match (
                self.lease.state(),
                &request.voice_lease_id,
            ) {
                (VoiceLeaseState::Active { lease_id }, Some(requested)) => {
                    if requested.same(lease_id) {
                        Ok(AdmissionPermit::Voice { lease_id: lease_id.clone() })
                    } else {
                        Err(NotSubmittedReason::PermissionDenied)
                    }
                },
                _ => Err(NotSubmittedReason::PermissionDenied),
            },
            _ => Err(NotSubmittedReason::PermissionDenied),
        }
    }

    /// Whether a permit obtained earlier still stands under the present lease.
    pub fn permit_remains_valid(&self, permit: &AdmissionPermit) -> (valid: bool)
        ensures
            valid == permit_stands(permit@, self@.lease.state),
    {
        match (permit, self.lease.state()) {
            (AdmissionPermit::UpstreamBaseline, VoiceLeaseState::Free) => true,
            (AdmissionPermit::NonHumanInput, _) => true,
            (
                AdmissionPermit::Voice { lease_id: permitted },
                VoiceLeaseState::Active { lease_id: active },
            ) => permitted.same(active),
            _ => false,
        }
    }
}

/// Admission of voice-authorized human input.
///
/// Every operation that depends on it takes the slot of the active turn, so a caller that shares
/// a controller holds the turn before it touches the controller.
#[derive(Debug)]
pub struct AdmissionController {
    pub authority: AdmissionState,
}

impl View for AdmissionController {
    type V = AdmissionModel;

    open spec fn view(&self) -> AdmissionModel {
        self.authority@
    }
}

impl Default for AdmissionController {
    fn default() -> (controller: Self)
        ensures
            controller@ == AdmissionModel::initial(),
            controller@.wf(),
    {
        AdmissionController {
            authority: AdmissionState {
                lease: VoiceLease::default(),
                idle_epoch: IdleEpoch(0),
                stopping: None,
                stopping_generation: 0,
                fencing_exhausted: false,
                next_effect_operation_id: 0,
                effect_operations: HashMap::new(),
            },
        }
    }
}

impl AdmissionController {
    /// Starts to acquire the lease, which takes an idle session with no delivery under way.
    pub fn begin_lease_acquire<T>(
        &mut self,
        active_turn: &Option<T>,
        lease_id: VoiceLeaseId,
    ) -> (outcome: Result<LeaseGeneration, BeginLeaseAcquireError>)
        ensures
            (final(self)@, outcome) == old(self)@.begin_lease_acquire(
                active_turn is Some,
                lease_id@,
            ),
    {
        if active_turn.is_some() {
            return Err(BeginLeaseAcquireError::Busy);
        }
        if self.authority.stopping.is_some() {
            return Err(BeginLeaseAcquireError::Stopping);
        }
        if self.authority.fencing_exhausted {
            return Err(BeginLeaseAcquireError::FencingExhausted);
        }
        if self.authority.has_unknown_effect() {
            return Err(BeginLeaseAcquireError::RecoveryRequired);
        }
        if !self.authority.effect_operations.is_empty() {
            return Err(BeginLeaseAcquireError::EffectInFlight);
        }
        assert(self.authority.effect_operations@ =~= Map::<u64, EffectOperation>::empty());
        match self.authority.lease.begin_acquire(lease_id) {
            Ok(generation) => Ok(generation),
            Err(error) => Err(BeginLeaseAcquireError::LeaseTransition(error)),
        }
    }

    pub fn activate_lease<T>(&mut self, _active_turn: &Option<T>, lease_id: &VoiceLeaseId) -> (outcome:
        Result<(), VoiceLeaseTransitionError>)
        ensures
            (final(self)@, outcome) == old(self)@.activate_lease(lease_id@),
    {
        self.authority.lease.activate(lease_id)
    }

    pub fn begin_lease_close<T>(
        &mut self,
        _active_turn: &Option<T>,
        lease_id: &VoiceLeaseId,
    ) -> (outcome: Result<(), VoiceLeaseTransitionError>)
        ensures
            (final(self)@, outcome) == old(self)@.begin_lease_close(lease_id@),
    {
        self.authority.lease.begin_close(lease_id)
    }

    /// Frees the lease, which takes an idle session with every delivery resolved.
    pub fn finish_lease_close<T>(
        &mut self,
        active_turn: &Option<T>,
        lease_id: &VoiceLeaseId,
    ) -> (outcome: Result<(), FinishLeaseCloseError>)
        ensures
            (final(self)@, outcome) == old(self)@.finish_lease_close(
                active_turn is Some,
                lease_id@,
            ),
    {
        if active_turn.is_some() {
            return Err(FinishLeaseCloseError::ActiveTurn);
        }
        if self.authority.stopping.is_some() {
            return Err(FinishLeaseCloseError::Stopping);
        }
        if self.authority.fencing_exhausted {
            return Err(FinishLeaseCloseError::FencingExhausted);
        }
        if self.authority.has_unknown_effect() {
            return Err(FinishLeaseCloseError::RecoveryRequired);
        }
        if !self.authority.effect_operations.is_empty() {
            return Err(FinishLeaseCloseError::EffectInFlight);
        }
        assert(self.authority.effect_operations@ =~= Map::<u64, EffectOperation>::empty());
        match self.authority.lease.finish_close(lease_id) {
            Ok(()) => Ok(()),
            Err(error) => Err(FinishLeaseCloseError::LeaseTransition(error)),
        }
    }

    /// Prepares a submission. `now` is a reading of the caller's monotonic clock and `ticket_ttl`
    /// a span on it, in the same unit.
    pub fn issue_ticket<T>(
        &self,
        active_turn: &Option<T>,
        request: AdmissionRequest,
        now: u64,
        ticket_ttl: u64,
    ) -> (outcome: Result<AdmissionTicket, NotSubmittedReason>)
        ensures
            match outcome {
                Ok(ticket) => self@.issue_ticket(
                    active_turn is Some,
                    request.provenance,
                    request.authority,
                    opt_lease_id(request.voice_lease_id),
                    now,
                    ticket_ttl,
                ) == Ok::<_, NotSubmittedReason>(ticket@),
                Err(reason) => self@.issue_ticket(
                    active_turn is Some,
                    request.provenance,
                    request.authority,
                    opt_lease_id(request.voice_lease_id),
                    now,
                    ticket_ttl,
                ) == Err::<TicketModel, _>(reason),
            },
    {
        if active_turn.is_some() {
            return Err(NotSubmittedReason::Busy);
        }
        if self.authority.stopping.is_some() {
            return Err(NotSubmittedReason::Stopping);
        }
        if self.authority.fencing_exhausted {
            return Err(NotSubmittedReason::FencingExhausted);
        }
        let permit = match self.authority.authorize(&request) {
            Ok(permit) => permit,
            Err(reason) => {
                return Err(reason);
            },
        };
        let lease_generation = match self.authority.lease.generation() {
            Ok(generation) => generation,
            Err(_) => {
                return Err(NotSubmittedReason::FencingExhausted);
            },
        };
        let expires_at: u64 = match now.checked_add(ticket_ttl) {
            Some(deadline) => deadline,
            None => now,
        };
        Ok(
            AdmissionTicket {
                lease_generation,
                idle_epoch: self.authority.idle_epoch,
                permit,
                commitment: CommitmentState::Prepared,
                expires_at,
            },
        )
    }

    /// Checks a prepared ticket again, at the point where delivery may begin.
    pub fn enter_effect_boundary<T>(
        &mut self,
        active_turn: &Option<T>,
        ticket: AdmissionTicket,
        now: u64,
    ) -> (outcome: Result<EffectBoundary, NotSubmittedReason>)
        ensures
            match outcome {
                Ok(boundary) => old(self)@.enter_effect_boundary(
                    active_turn is Some,
                    ticket@,
                    now,
                ) == (final(self)@, Ok::<_, NotSubmittedReason>(boundary@)),
                Err(reason) => old(self)@.enter_effect_boundary(
                    active_turn is Some,
                    ticket@,
                    now,
                ) == (final(self)@, Err::<BoundaryModel, _>(reason)),
            },
    {
        if now >= ticket.expires_at {
            return Err(NotSubmittedReason::TicketExpired);
        }
        if active_turn.is_some() {
            return Err(NotSubmittedReason::Busy);
        }
        if self.authority.stopping.is_some() {
            return Err(NotSubmittedReason::Stopping);
        }
        if self.authority.fencing_exhausted {
            return Err(NotSubmittedReason::FencingExhausted);
        }
        let lease_generation = match self.authority.lease.generation() {
            Ok(generation) => generation,
            Err(_) => {
                return Err(NotSubmittedReason::FencingExhausted);
            },
        };
        if ticket.lease_generation != lease_generation || !self.authority.permit_remains_valid(
            &ticket.permit,
        ) {
            return Err(NotSubmittedReason::StaleGeneration);
        }
        if ticket.idle_epoch != self.authority.idle_epoch {
            return Err(NotSubmittedReason::StaleIdleEpoch);
        }
        let operation_id: u64 = match self.authority.next_effect_operation_id.checked_add(1) {
            Some(next) => next,
            None => {
                self.authority.fencing_exhausted = true;
                return Err(NotSubmittedReason::FencingExhausted);
            },
        };
        self.authority.next_effect_operation_id = operation_id;
        self.authority.effect_operations.insert(
            operation_id,
            EffectOperation { lease_generation, state: EffectOperationState::Committing },
        );
        Ok(EffectBoundary { operation_id, lease_generation })
    }

    /// Resolves a delivery whose result is known. This says nothing of how the turn ends.
    pub fn resolve_effect_known<T>(
        &mut self,
        _active_turn: &Option<T>,
        boundary: &EffectBoundary,
    ) -> (outcome: Result<SubmissionResolution, ResolveEffectError>)
        ensures
            (final(self)@, outcome) == old(self)@.resolve_effect_known(boundary@),
    {
        match self.authority.resolve_effect(boundary) {
            Ok(()) => {
                self.authority.effect_operations.remove(&boundary.operation_id);
                Ok(SubmissionResolution::KnownResult)
            },
            Err(error) => Err(error),
        }
    }

    /// Keeps the evidence of an ambiguous delivery and forces the lease into recovery.
    pub fn resolve_effect_unknown<T>(
        &mut self,
        _active_turn: &Option<T>,
        boundary: &EffectBoundary,
    ) -> (outcome: Result<SubmissionResolution, ResolveEffectError>)
        ensures
            (final(self)@, outcome) == old(self)@.resolve_effect_unknown(boundary@),
    {
        match self.authority.resolve_effect(boundary) {
            Ok(()) => {},
            Err(error) => {
                return Err(error);
            },
        }
        self.authority.effect_operations.insert(
            boundary.operation_id,
            EffectOperation {
                lease_generation: boundary.lease_generation,
                state: EffectOperationState::Unknown,
            },
        );
        match self.authority.lease.mark_recovery_required() {
            Ok(()) => Ok(SubmissionResolution::UnknownResult),
            Err(_) => {
                self.authority.fencing_exhausted = true;
                Err(ResolveEffectError::FencingExhausted)
            },
        }
    }

    /// Enters the next idle epoch, which outdates every ticket issued so far.
    pub fn record_idle_transition<T>(&mut self, _active_turn: &Option<T>) -> (outcome: Result<
        (),
        FencingError,
    >)
        ensures
            (final(self)@, outcome) == old(self)@.record_idle_transition(),
    {
        match self.authority.idle_epoch.next() {
            Some(idle_epoch) => {
                self.authority.idle_epoch = idle_epoch;
                Ok(())
            },
            None => {
                self.authority.fencing_exhausted = true;
                Err(FencingError::GenerationExhausted)
            },
        }
    }

    /// Raises the stopping fence for a turn.
    pub fn begin_stopping<T>(&mut self, _active_turn: &Option<T>, turn_id: String) -> (outcome: Result<
        u64,
        BeginStoppingError,
    >)
        ensures
            (final(self)@, outcome) == old(self)@.begin_stopping(turn_id@),
    {
        if self.authority.stopping.is_some() {
            return Err(BeginStoppingError::AlreadyStopping);
        }
        match self.authority.stopping_generation.checked_add(1) {
            Some(generation) => {
                self.authority.stopping_generation = generation;
                self.authority.stopping = Some(StoppingFence { turn_id, generation });
                Ok(generation)
            },
            None => {
                self.authority.fencing_exhausted = true;
                Err(BeginStoppingError::GenerationExhausted)
            },
        }
    }

    /// Lowers the stopping fence, if it is the one named and no turn is active.
    pub fn finish_stopping<T>(
        &mut self,
        active_turn: &Option<T>,
        turn_id: &str,
        generation: u64,
    ) -> (finished: bool)
        ensures
            (final(self)@, finished) == old(self)@.finish_stopping(
                active_turn is Some,
                turn_id@,
                generation,
            ),
    {
        let matches_finalizer: bool = active_turn.is_none() && match &self.authority.stopping {
            Some(fence) => same_text(fence.turn_id.as_str(), turn_id) && fence.generation
                == generation,
            None => false,
        };
        if !matches_finalizer {
            return false;
        }
        match self.authority.idle_epoch.next() {
            Some(idle_epoch) => {
                self.authority.stopping = None;
                self.authority.idle_epoch = idle_epoch;
                true
            },
            None => {
                self.authority.fencing_exhausted = true;
                false
            },
        }
    }
}

} // verus!
