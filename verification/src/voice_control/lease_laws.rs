//! What holds of a voice lease whatever is asked of it, and in whatever order.

use vstd::prelude::*;
use crate::voice_control::lease::{
    successor, LeaseGeneration, LeaseModel, LeaseStateModel, VoiceLeaseTransitionError,
};

verus! {

/// Everything that can be asked of a lease.
pub enum LeaseAction {
    BeginAcquire(Seq<char>),
    Activate(Seq<char>),
    BeginClose(Seq<char>),
    FinishClose(Seq<char>),
    MarkRecoveryRequired,
}

impl LeaseModel {
    /// The lease after one request, whether it was granted or refused.
    pub open spec fn after(self, action: LeaseAction) -> LeaseModel {
        match action {
            LeaseAction::BeginAcquire(id) => self.begin_acquire(id).0,
            LeaseAction::Activate(id) => self.activate(id).0,
            LeaseAction::BeginClose(id) => self.begin_close(id).0,
            LeaseAction::FinishClose(id) => self.finish_close(id).0,
            LeaseAction::MarkRecoveryRequired => self.mark_recovery_required().0,
        }
    }

    /// The lease after a series of requests.
    pub open spec fn after_all(self, actions: Seq<LeaseAction>) -> LeaseModel
        decreases actions.len(),
    {
        if actions.len() == 0 {
            self
        } else {
            self.after_all(actions.drop_last()).after(actions.last())
        }
    }
}

impl LeaseAction {
    /// Whether a lease grants this request a generation.
    pub open spec fn is_granted_by(self, lease: LeaseModel) -> bool {
        match self {
            LeaseAction::BeginAcquire(id) => lease.begin_acquire(id).1 is Ok,
            LeaseAction::FinishClose(id) => lease.finish_close(id).1 is Ok,
            LeaseAction::MarkRecoveryRequired => lease.mark_recovery_required().1 is Ok,
            LeaseAction::Activate(_) => false,
            LeaseAction::BeginClose(_) => false,
        }
    }
}

/// How many of a series of requests a lease grants a generation.
pub open spec fn generations_granted(lease: LeaseModel, actions: Seq<LeaseAction>) -> nat
    decreases actions.len(),
{
    if actions.len() == 0 {
        0
    } else {
        generations_granted(lease, actions.drop_last()) + if actions.last().is_granted_by(
            lease.after_all(actions.drop_last()),
        ) {
            1nat
        } else {
            0nat
        }
    }
}

/// A lease counts in its generation how often it was acquired, freed and lost, and nothing else.
pub proof fn a_generation_counts_what_was_granted(lease: LeaseModel, actions: Seq<LeaseAction>)
    ensures
        lease.after_all(actions).generation.0 == lease.generation.0 + generations_granted(
            lease,
            actions,
        ),
    decreases actions.len(),
{
    if actions.len() > 0 {
        a_generation_counts_what_was_granted(lease, actions.drop_last());
    }
}

/// A fresh lease is well formed, and every request keeps it so.
pub proof fn every_request_keeps_a_lease_well_formed(lease: LeaseModel, action: LeaseAction)
    ensures
        LeaseModel::initial().wf(),
        lease.wf() ==> lease.after(action).wf(),
{
}

/// A lease that requires recovery is never released: no series of requests changes its state.
pub proof fn recovery_is_never_released(lease: LeaseModel, actions: Seq<LeaseAction>)
    requires
        lease.state is RecoveryRequired,
    ensures
        lease.after_all(actions).state == lease.state,
    decreases actions.len(),
{
    if actions.len() > 0 {
        recovery_is_never_released(lease, actions.drop_last());
    }
}

/// Only the owner that has begun to close a lease can free it, and freeing it takes a new
/// generation.
pub proof fn only_the_closing_owner_frees_a_lease(lease: LeaseModel, action: LeaseAction)
    requires
        !(lease.state is Free),
        lease.after(action).state is Free,
    ensures
        action matches LeaseAction::FinishClose(id) && lease.state == LeaseStateModel::Closing(id),
        successor(lease.generation) == Some(lease.after(action).generation),
{
}

/// A session that does not own the lease cannot advance or release it, nor take it over.
pub proof fn another_owner_changes_nothing(lease: LeaseModel, other: Seq<char>)
    requires
        !(lease.state is Free),
        lease.state.owner() != Some(other),
    ensures
        lease.begin_acquire(other) == (
            lease,
            Err::<LeaseGeneration, _>(VoiceLeaseTransitionError::NotFree),
        ),
        lease.activate(other).0 == lease,
        lease.activate(other).1 is Err,
        lease.begin_close(other).0 == lease,
        lease.begin_close(other).1 is Err,
        lease.finish_close(other).0 == lease,
        lease.finish_close(other).1 is Err,
{
}

/// A generation never goes back, over any series of requests.
pub proof fn generations_never_go_back(lease: LeaseModel, actions: Seq<LeaseAction>)
    ensures
        lease.generation.0 <= lease.after_all(actions).generation.0,
    decreases actions.len(),
{
    if actions.len() > 0 {
        generations_never_go_back(lease, actions.drop_last());
    }
}

/// Taking, freeing and losing a lease each take the next generation, so what was prepared under
/// an earlier generation can be told apart from the present.
pub proof fn every_change_of_ownership_takes_the_next_generation(
    lease: LeaseModel,
    action: LeaseAction,
)
    requires
        lease.wf(),
        lease.generation.0 < u64::MAX,
    ensures
        lease.after(action).generation == lease.generation <==> {
            ||| lease.after(action) == lease
            ||| lease.state is Acquiring && lease.after(action).state is Active
            ||| lease.state is Active && lease.after(action).state is Closing
        },
        lease.after(action).generation != lease.generation ==> Some(
            lease.after(action).generation,
        ) == successor(lease.generation),
{
}

/// Without a generation left, what would change ownership leaves the lease in recovery instead,
/// and it stays exhausted.
pub proof fn exhaustion_fails_closed(lease: LeaseModel, action: LeaseAction)
    requires
        lease.wf(),
        lease.generation.0 == u64::MAX,
    ensures
        lease.after(action).generation == lease.generation,
        lease.after(action).state is Free ==> lease.after(action) == lease,
        lease.exhausted ==> lease.after(action).exhausted,
        action is MarkRecoveryRequired ==> lease.after(action).exhausted,
{
}

/// The explicit lifecycle: a free lease is acquired, activated, closed and freed by one owner,
/// and ends free two generations later.
pub proof fn a_lease_follows_its_lifecycle(lease: LeaseModel, id: Seq<char>)
    requires
        lease.state is Free,
        lease.generation.0 + 2 <= u64::MAX,
    ensures
        ({
            let acquired = lease.begin_acquire(id);
            let active = acquired.0.activate(id);
            let closing = active.0.begin_close(id);
            let freed = closing.0.finish_close(id);
            &&& acquired.1 is Ok
            &&& acquired.0.state == LeaseStateModel::Acquiring(id)
            &&& active.1 is Ok
            &&& active.0.state == LeaseStateModel::Active(id)
            &&& closing.1 is Ok
            &&& closing.0.state == LeaseStateModel::Closing(id)
            &&& freed.1 is Ok
            &&& freed.0.state is Free
            &&& freed.0.generation.0 == lease.generation.0 + 2
        }),
{
}

} // verus!
