//! What each request of a lease comes to, read off the state of the lease alone.

use vstd::prelude::*;
use crate::voice_control::lease::{
    LeaseGeneration, LeaseModel, LeaseStateModel, VoiceLeaseTransitionError,
};

verus! {

/// A lease is acquired exactly if it is free and has a generation left, for whoever asks. It takes
/// the generation that follows.
pub proof fn a_free_lease_is_acquired(lease: LeaseModel, id: Seq<char>)
    ensures
        ({
            let (next, outcome) = lease.begin_acquire(id);
            &&& lease.state == LeaseStateModel::Free && lease.generation.0 < u64::MAX ==> {
                &&& outcome matches Ok(generation) && generation.0 == lease.generation.0 + 1
                &&& next == (LeaseModel {
                    state: LeaseStateModel::Acquiring(id),
                    generation: outcome->Ok_0,
                    ..lease
                })
            }
            &&& lease.state == LeaseStateModel::Free && lease.generation.0 == u64::MAX ==> {
                &&& outcome == Err::<LeaseGeneration, _>(
                    VoiceLeaseTransitionError::GenerationExhausted,
                )
                &&& next == (LeaseModel {
                    state: LeaseStateModel::RecoveryRequired(None),
                    exhausted: true,
                    ..lease
                })
            }
            &&& lease.state != LeaseStateModel::Free ==> (next, outcome) == (
                lease,
                Err::<LeaseGeneration, _>(VoiceLeaseTransitionError::NotFree),
            )
        }),
{
}

/// The owner that is acquiring a lease activates it, and the owner that holds it begins to close
/// it; no one else does, in no other state. The generation stays.
pub proof fn the_owner_activates_and_closes(lease: LeaseModel, id: Seq<char>)
    ensures
        ({
            let (next, outcome) = lease.activate(id);
            &&& outcome is Ok <==> lease.state == LeaseStateModel::Acquiring(id)
            &&& outcome is Ok ==> next == (LeaseModel {
                state: LeaseStateModel::Active(id),
                ..lease
            })
            &&& outcome is Err ==> next == lease
            &&& outcome == Err::<(), _>(VoiceLeaseTransitionError::WrongOwner) <==> (
            lease.state matches LeaseStateModel::Acquiring(owner) && owner != id)
            &&& outcome == Err::<(), _>(VoiceLeaseTransitionError::WrongState) <==> !(
            lease.state is Acquiring)
        }),
        ({
            let (next, outcome) = lease.begin_close(id);
            &&& outcome is Ok <==> lease.state == LeaseStateModel::Active(id)
            &&& outcome is Ok ==> next == (LeaseModel {
                state: LeaseStateModel::Closing(id),
                ..lease
            })
            &&& outcome is Err ==> next == lease
            &&& outcome == Err::<(), _>(VoiceLeaseTransitionError::WrongOwner) <==> (
            lease.state matches LeaseStateModel::Active(owner) && owner != id)
            &&& outcome == Err::<(), _>(VoiceLeaseTransitionError::WrongState) <==> !(
            lease.state is Active)
        }),
{
}

/// The owner that is closing a lease frees it, and takes the generation that follows; without one
/// left the lease stays with that owner for recovery.
pub proof fn the_closing_owner_frees(lease: LeaseModel, id: Seq<char>)
    ensures
        ({
            let (next, outcome) = lease.finish_close(id);
            &&& outcome is Ok <==> lease.state == LeaseStateModel::Closing(id)
                && lease.generation.0 < u64::MAX
            &&& outcome is Ok ==> {
                &&& next.state == LeaseStateModel::Free
                &&& next.generation.0 == lease.generation.0 + 1
                &&& next.exhausted == lease.exhausted
            }
            &&& lease.state == LeaseStateModel::Closing(id) && lease.generation.0 == u64::MAX ==> {
                &&& outcome == Err::<(), _>(VoiceLeaseTransitionError::GenerationExhausted)
                &&& next == (LeaseModel {
                    state: LeaseStateModel::RecoveryRequired(Some(id)),
                    exhausted: true,
                    ..lease
                })
            }
            &&& lease.state != LeaseStateModel::Closing(id) ==> next == lease
            &&& outcome == Err::<(), _>(VoiceLeaseTransitionError::WrongOwner) <==> (
            lease.state matches LeaseStateModel::Closing(owner) && owner != id)
            &&& outcome == Err::<(), _>(VoiceLeaseTransitionError::WrongState) <==> !(
            lease.state is Closing)
        }),
{
}

/// A loss of evidence puts a lease into recovery from every state, and keeps the name of its last
/// owner. It takes the generation that follows, and exhausts the lease where there is none.
pub proof fn uncertainty_leads_to_recovery(lease: LeaseModel)
    ensures
        ({
            let (next, outcome) = lease.mark_recovery_required();
            let owner = match lease.state {
                LeaseStateModel::Free => None,
                LeaseStateModel::Acquiring(id) => Some(id),
                LeaseStateModel::Active(id) => Some(id),
                LeaseStateModel::Closing(id) => Some(id),
                LeaseStateModel::RecoveryRequired(id) => id,
            };
            &&& next.state == LeaseStateModel::RecoveryRequired(owner)
            &&& lease.generation.0 < u64::MAX ==> {
                &&& outcome is Ok
                &&& next.generation.0 == lease.generation.0 + 1
                &&& next.exhausted == lease.exhausted
            }
            &&& lease.generation.0 == u64::MAX ==> {
                &&& outcome == Err::<(), _>(VoiceLeaseTransitionError::GenerationExhausted)
                &&& next.generation == lease.generation
                &&& next.exhausted
            }
        }),
{
}

/// A lease tells its generation exactly until it is exhausted, and begins free with the first one.
pub proof fn a_lease_tells_its_generation(lease: LeaseModel)
    ensures
        lease.exhausted ==> lease.current_generation() == Err::<LeaseGeneration, _>(
            VoiceLeaseTransitionError::GenerationExhausted,
        ),
        !lease.exhausted ==> lease.current_generation() == Ok::<_, VoiceLeaseTransitionError>(
            lease.generation,
        ),
        LeaseModel::initial() == (LeaseModel {
            state: LeaseStateModel::Free,
            generation: LeaseGeneration(0),
            exhausted: false,
        }),
{
}

} // verus!
