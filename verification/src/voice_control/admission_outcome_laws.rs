//! What each request of admission comes to, read off the fences and the lease alone.

use vstd::prelude::*;
use crate::voice_control::admission::{
    authorized, AdmissionModel, BeginLeaseAcquireError, BeginStoppingError, BoundaryModel,
    CommitmentState, EffectOperation, EffectOperationState, FenceModel, FencingError,
    FinishLeaseCloseError, IdleEpoch, NotSubmittedReason, PermitModel, ResolveEffectError,
    SubmissionResolution, TicketModel,
};
use crate::voice_control::lease::{
    LeaseGeneration, LeaseModel, LeaseStateModel, VoiceLeaseTransitionError,
};
use crate::voice_control::provenance::{
    InputOrigin, InputProvenance, SubmissionAuthority,
};

verus! {

/// Who is permitted what. Correlated responses, agents and system continuations need nothing but
/// the authority that goes with them, in every state of the lease. External and unknown input
/// needs its own authority and a free lease. Voice needs its own authority and the name of the
/// owner of an active lease. Everything else is denied.
pub proof fn a_permit_follows_from_origin_authority_and_lease(
    lease: LeaseStateModel,
    provenance: InputProvenance,
    authority: SubmissionAuthority,
    voice_lease_id: Option<Seq<char>>,
)
    ensures
        ({
            let permit = authorized(lease, provenance, authority, voice_lease_id);
            let origin = provenance.origin;
            let not_human = {
                ||| origin == InputOrigin::CorrelatedResponse && authority
                    == SubmissionAuthority::CorrelatedResponse
                ||| origin == InputOrigin::InternalAgent && authority
                    == SubmissionAuthority::InternalAgent
                ||| origin == InputOrigin::SystemContinuation && authority
                    == SubmissionAuthority::System
            };
            let ordinary = lease == LeaseStateModel::Free && {
                ||| origin == InputOrigin::HumanExternalClient && authority
                    == SubmissionAuthority::ExternalClient
                ||| origin == InputOrigin::Unknown && authority == SubmissionAuthority::Unknown
            };
            let voice = origin == InputOrigin::HumanVoice && authority == SubmissionAuthority::Voice
                && (voice_lease_id matches Some(id) && lease == LeaseStateModel::Active(id));
            &&& not_human ==> permit == Ok::<_, NotSubmittedReason>(PermitModel::NonHumanInput)
            &&& ordinary ==> permit == Ok::<_, NotSubmittedReason>(PermitModel::UpstreamBaseline)
            &&& voice ==> permit == Ok::<_, NotSubmittedReason>(
                PermitModel::Voice(voice_lease_id->0),
            )
            &&& !not_human && !ordinary && !voice ==> permit == Err::<PermitModel, _>(
                NotSubmittedReason::PermissionDenied,
            )
        }),
{
}

/// A ticket is issued exactly if nothing holds it back: no turn is active, none is being stopped,
/// neither the fences nor the lease have run out of generations, and the request is permitted. It
/// carries the permit, the present generation and epoch, and a deadline that lies the given span
/// ahead, or in the present where the clock cannot represent that.
pub proof fn a_ticket_is_issued_exactly_if_nothing_holds_it_back(
    state: AdmissionModel,
    busy: bool,
    provenance: InputProvenance,
    authority: SubmissionAuthority,
    voice_lease_id: Option<Seq<char>>,
    now: u64,
    ttl: u64,
)
    ensures
        ({
            let outcome = state.issue_ticket(busy, provenance, authority, voice_lease_id, now, ttl);
            let permit = authorized(state.lease.state, provenance, authority, voice_lease_id);
            let open = !busy && state.stopping is None && !state.fencing_exhausted;
            &&& outcome is Ok <==> open && permit is Ok && !state.lease.exhausted
            &&& outcome matches Ok(ticket) ==> {
                &&& permit == Ok::<_, NotSubmittedReason>(ticket.permit)
                &&& ticket.lease_generation == state.lease.generation
                &&& ticket.idle_epoch == state.idle_epoch
                &&& ticket.commitment == CommitmentState::Prepared
                &&& now + ttl <= u64::MAX ==> ticket.expires_at == now + ttl
                &&& now + ttl > u64::MAX ==> ticket.expires_at == now
            }
            &&& busy ==> outcome == Err::<TicketModel, _>(NotSubmittedReason::Busy)
            &&& !busy && state.stopping is Some ==> outcome == Err::<TicketModel, _>(
                NotSubmittedReason::Stopping,
            )
            &&& !busy && state.stopping is None && state.fencing_exhausted ==> outcome == Err::<
                TicketModel,
                _,
            >(NotSubmittedReason::FencingExhausted)
            &&& open && permit is Err ==> outcome == Err::<TicketModel, _>(
                NotSubmittedReason::PermissionDenied,
            )
            &&& open && permit is Ok && state.lease.exhausted ==> outcome == Err::<TicketModel, _>(
                NotSubmittedReason::FencingExhausted,
            )
        }),
{
}

/// Input that is not human is issued a ticket in every state of the lease, under the authority
/// that goes with it.
pub proof fn input_that_is_not_human_does_not_wait_for_the_lease(
    state: AdmissionModel,
    provenance: InputProvenance,
    authority: SubmissionAuthority,
    voice_lease_id: Option<Seq<char>>,
    now: u64,
    ttl: u64,
)
    requires
        state.stopping is None,
        !state.fencing_exhausted,
        !state.lease.exhausted,
        provenance.origin == InputOrigin::CorrelatedResponse && authority
            == SubmissionAuthority::CorrelatedResponse || provenance.origin
            == InputOrigin::InternalAgent && authority == SubmissionAuthority::InternalAgent
            || provenance.origin == InputOrigin::SystemContinuation && authority
            == SubmissionAuthority::System,
    ensures
        state.issue_ticket(
            false,
            provenance,
            authority,
            voice_lease_id,
            now,
            ttl,
        ) matches Ok(ticket) && ticket.permit == PermitModel::NonHumanInput,
{
}

/// A delivery begins exactly if the ticket has not expired, nothing holds it back, and it is of
/// the present generation and epoch with a permit that the lease still grants. It is given the
/// number that follows the last one.
pub proof fn a_delivery_begins_exactly_with_a_current_ticket(
    state: AdmissionModel,
    busy: bool,
    ticket: TicketModel,
    now: u64,
)
    ensures
        ({
            let (next, outcome) = state.enter_effect_boundary(busy, ticket, now);
            let granted = match ticket.permit {
                PermitModel::UpstreamBaseline => state.lease.state == LeaseStateModel::Free,
                PermitModel::Voice(id) => state.lease.state == LeaseStateModel::Active(id),
                PermitModel::NonHumanInput => true,
            };
            let in_time = now < ticket.expires_at;
            let open = !busy && state.stopping is None;
            let fenced = !state.fencing_exhausted && !state.lease.exhausted;
            let current = ticket.lease_generation == state.lease.generation && granted;
            let numbered = state.next_effect_operation_id < u64::MAX;
            &&& outcome is Ok <==> in_time && open && fenced && current && ticket.idle_epoch
                == state.idle_epoch && numbered
            &&& outcome matches Ok(boundary) ==> {
                &&& boundary.operation_id == state.next_effect_operation_id + 1
                &&& boundary.lease_generation == state.lease.generation
                &&& next == (AdmissionModel {
                    next_effect_operation_id: boundary.operation_id,
                    effects: state.effects.insert(
                        boundary.operation_id,
                        EffectOperation {
                            lease_generation: state.lease.generation,
                            state: EffectOperationState::Committing,
                        },
                    ),
                    ..state
                })
            }
            &&& outcome is Err ==> next == (AdmissionModel {
                fencing_exhausted: next.fencing_exhausted,
                ..state
            })
            &&& outcome is Err && next.fencing_exhausted != state.fencing_exhausted ==> !numbered
                && outcome->Err_0 == NotSubmittedReason::FencingExhausted
            &&& !in_time ==> outcome == Err::<BoundaryModel, _>(NotSubmittedReason::TicketExpired)
            &&& in_time && busy ==> outcome == Err::<BoundaryModel, _>(NotSubmittedReason::Busy)
            &&& in_time && !busy && state.stopping is Some ==> outcome == Err::<BoundaryModel, _>(
                NotSubmittedReason::Stopping,
            )
            &&& in_time && open && !fenced ==> outcome == Err::<BoundaryModel, _>(
                NotSubmittedReason::FencingExhausted,
            )
            &&& in_time && open && fenced && !current ==> outcome == Err::<BoundaryModel, _>(
                NotSubmittedReason::StaleGeneration,
            )
            &&& in_time && open && fenced && current && ticket.idle_epoch != state.idle_epoch
                ==> outcome == Err::<BoundaryModel, _>(NotSubmittedReason::StaleIdleEpoch)
            &&& in_time && open && fenced && current && ticket.idle_epoch == state.idle_epoch
                && !numbered ==> {
                &&& outcome == Err::<BoundaryModel, _>(NotSubmittedReason::FencingExhausted)
                &&& next.fencing_exhausted
            }
        }),
{
}

/// A delivery is resolved exactly by a handle of its number and generation while it is under way.
/// A known result takes it out. An unknown one keeps it, marked, and puts the lease into recovery
/// in the name of its last owner; without a generation left for that, fencing is exhausted.
pub proof fn a_delivery_is_resolved_exactly_by_its_handle(
    state: AdmissionModel,
    boundary: BoundaryModel,
)
    ensures
        ({
            let known = state.effects.contains_key(boundary.operation_id);
            let operation = state.effects[boundary.operation_id];
            let under_way = known && operation == EffectOperation {
                lease_generation: boundary.lease_generation,
                state: EffectOperationState::Committing,
            };
            let refusal = if !known {
                ResolveEffectError::UnknownOperation
            } else if operation.state == EffectOperationState::Unknown {
                ResolveEffectError::AlreadyResolved
            } else {
                ResolveEffectError::StaleGeneration
            };
            let owner = match state.lease.state {
                LeaseStateModel::Free => None,
                LeaseStateModel::Acquiring(id) => Some(id),
                LeaseStateModel::Active(id) => Some(id),
                LeaseStateModel::Closing(id) => Some(id),
                LeaseStateModel::RecoveryRequired(id) => id,
            };
            let (settled, outcome) = state.resolve_effect_known(boundary);
            let (lost, loss) = state.resolve_effect_unknown(boundary);
            &&& under_way ==> {
                &&& outcome == Ok::<_, ResolveEffectError>(SubmissionResolution::KnownResult)
                &&& settled == (AdmissionModel {
                    effects: state.effects.remove(boundary.operation_id),
                    ..state
                })
                &&& lost.effects == state.effects.insert(
                    boundary.operation_id,
                    EffectOperation {
                        lease_generation: boundary.lease_generation,
                        state: EffectOperationState::Unknown,
                    },
                )
                &&& lost.lease.state == LeaseStateModel::RecoveryRequired(owner)
                &&& lost.idle_epoch == state.idle_epoch
                &&& lost.stopping == state.stopping
                &&& lost.stopping_generation == state.stopping_generation
                &&& lost.next_effect_operation_id == state.next_effect_operation_id
                &&& state.lease.generation.0 < u64::MAX ==> {
                    &&& loss == Ok::<_, ResolveEffectError>(SubmissionResolution::UnknownResult)
                    &&& lost.lease.generation.0 == state.lease.generation.0 + 1
                    &&& lost.lease.exhausted == state.lease.exhausted
                    &&& lost.fencing_exhausted == state.fencing_exhausted
                }
                &&& state.lease.generation.0 == u64::MAX ==> {
                    &&& loss == Err::<SubmissionResolution, _>(ResolveEffectError::FencingExhausted)
                    &&& lost.lease.generation == state.lease.generation
                    &&& lost.lease.exhausted
                    &&& lost.fencing_exhausted
                }
            }
            &&& !under_way ==> {
                &&& (settled, outcome) == (state, Err::<SubmissionResolution, _>(refusal))
                &&& (lost, loss) == (state, Err::<SubmissionResolution, _>(refusal))
            }
        }),
{
}

/// An idle transition takes the epoch that follows and changes nothing else; without one left
/// fencing is exhausted.
pub proof fn an_idle_transition_takes_the_next_epoch(state: AdmissionModel)
    ensures
        ({
            let (next, outcome) = state.record_idle_transition();
            &&& state.idle_epoch.0 < u64::MAX ==> {
                &&& outcome is Ok
                &&& next == (AdmissionModel {
                    idle_epoch: IdleEpoch((state.idle_epoch.0 + 1) as u64),
                    ..state
                })
            }
            &&& state.idle_epoch.0 == u64::MAX ==> {
                &&& outcome == Err::<(), _>(FencingError::GenerationExhausted)
                &&& next == (AdmissionModel { fencing_exhausted: true, ..state })
            }
        }),
{
}

/// A stopping fence is raised exactly if there is none, for the turn that is named, under the
/// generation that follows.
pub proof fn a_fence_is_raised_where_there_is_none(state: AdmissionModel, turn_id: Seq<char>)
    ensures
        ({
            let (next, outcome) = state.begin_stopping(turn_id);
            &&& state.stopping is Some ==> (next, outcome) == (
                state,
                Err::<u64, _>(BeginStoppingError::AlreadyStopping),
            )
            &&& state.stopping is None && state.stopping_generation < u64::MAX ==> {
                &&& outcome matches Ok(generation) && generation == state.stopping_generation + 1
                &&& next == (AdmissionModel {
                    stopping: Some(FenceModel { turn_id, generation: outcome->Ok_0 }),
                    stopping_generation: outcome->Ok_0,
                    ..state
                })
            }
            &&& state.stopping is None && state.stopping_generation == u64::MAX ==> {
                &&& outcome == Err::<u64, _>(BeginStoppingError::GenerationExhausted)
                &&& next == (AdmissionModel { fencing_exhausted: true, ..state })
            }
        }),
{
}

/// A stopping fence is lowered exactly by its own turn and generation while no turn is active, and
/// that takes the idle epoch that follows; without one left the fence stays and fencing is
/// exhausted.
pub proof fn a_fence_is_lowered_by_its_own_finalizer(
    state: AdmissionModel,
    busy: bool,
    turn_id: Seq<char>,
    generation: u64,
)
    ensures
        ({
            let (next, finished) = state.finish_stopping(busy, turn_id, generation);
            let own = !busy && (state.stopping matches Some(fence) && fence.turn_id == turn_id
                && fence.generation == generation);
            &&& finished <==> own && state.idle_epoch.0 < u64::MAX
            &&& finished ==> next == (AdmissionModel {
                stopping: None,
                idle_epoch: IdleEpoch((state.idle_epoch.0 + 1) as u64),
                ..state
            })
            &&& own && state.idle_epoch.0 == u64::MAX ==> next == (AdmissionModel {
                fencing_exhausted: true,
                ..state
            })
            &&& !own ==> next == state
        }),
{
}

/// The lease is acquired exactly if no turn is active or being stopped, fencing is not exhausted,
/// no delivery is under way or unknown, and the lease is free with a generation left. What stands
/// in the way is named in a fixed order.
pub proof fn the_lease_is_acquired_exactly_in_an_idle_session(
    state: AdmissionModel,
    busy: bool,
    id: Seq<char>,
)
    ensures
        ({
            let (next, outcome) = state.begin_lease_acquire(busy, id);
            let unknown = exists|k: u64| #[trigger]
                state.effects.contains_key(k) && state.effects[k].state
                    == EffectOperationState::Unknown;
            let open = exists|k: u64| #[trigger] state.effects.contains_key(k);
            let quiet = !busy && state.stopping is None && !state.fencing_exhausted;
            &&& outcome is Ok <==> quiet && !open && state.lease.state == LeaseStateModel::Free
                && state.lease.generation.0 < u64::MAX
            &&& outcome matches Ok(generation) ==> {
                &&& generation.0 == state.lease.generation.0 + 1
                &&& next == (AdmissionModel {
                    lease: LeaseModel {
                        state: LeaseStateModel::Acquiring(id),
                        generation,
                        ..state.lease
                    },
                    ..state
                })
            }
            &&& busy ==> outcome == Err::<LeaseGeneration, _>(BeginLeaseAcquireError::Busy)
            &&& !busy && state.stopping is Some ==> outcome == Err::<LeaseGeneration, _>(
                BeginLeaseAcquireError::Stopping,
            )
            &&& !busy && state.stopping is None && state.fencing_exhausted ==> outcome == Err::<
                LeaseGeneration,
                _,
            >(BeginLeaseAcquireError::FencingExhausted)
            &&& quiet && unknown ==> outcome == Err::<LeaseGeneration, _>(
                BeginLeaseAcquireError::RecoveryRequired,
            )
            &&& quiet && open && !unknown ==> outcome == Err::<LeaseGeneration, _>(
                BeginLeaseAcquireError::EffectInFlight,
            )
            &&& quiet && !open && state.lease.state != LeaseStateModel::Free ==> outcome == Err::<
                LeaseGeneration,
                _,
            >(BeginLeaseAcquireError::LeaseTransition(VoiceLeaseTransitionError::NotFree))
            &&& quiet && !open && state.lease.state == LeaseStateModel::Free
                && state.lease.generation.0 == u64::MAX ==> {
                &&& outcome == Err::<LeaseGeneration, _>(
                    BeginLeaseAcquireError::LeaseTransition(
                        VoiceLeaseTransitionError::GenerationExhausted,
                    ),
                )
                &&& next.lease.state == LeaseStateModel::RecoveryRequired(None)
            }
            &&& !quiet || open || state.lease.state != LeaseStateModel::Free ==> next == state
        }),
{
    lemma_no_effects(state);
}

/// The lease is freed exactly if no turn is active or being stopped, fencing is not exhausted, no
/// delivery is under way or unknown, and the asking owner is closing it with a generation left.
pub proof fn the_lease_is_freed_exactly_in_an_idle_session(
    state: AdmissionModel,
    busy: bool,
    id: Seq<char>,
)
    ensures
        ({
            let (next, outcome) = state.finish_lease_close(busy, id);
            let unknown = exists|k: u64| #[trigger]
                state.effects.contains_key(k) && state.effects[k].state
                    == EffectOperationState::Unknown;
            let open = exists|k: u64| #[trigger] state.effects.contains_key(k);
            let quiet = !busy && state.stopping is None && !state.fencing_exhausted;
            &&& outcome is Ok <==> quiet && !open && state.lease.state
                == LeaseStateModel::Closing(id) && state.lease.generation.0 < u64::MAX
            &&& outcome is Ok ==> {
                &&& next.lease.state == LeaseStateModel::Free
                &&& next.lease.generation.0 == state.lease.generation.0 + 1
                &&& next.lease.exhausted == state.lease.exhausted
                &&& next == (AdmissionModel { lease: next.lease, ..state })
            }
            &&& busy ==> outcome == Err::<(), _>(FinishLeaseCloseError::ActiveTurn)
            &&& !busy && state.stopping is Some ==> outcome == Err::<(), _>(
                FinishLeaseCloseError::Stopping,
            )
            &&& !busy && state.stopping is None && state.fencing_exhausted ==> outcome == Err::<
                (),
                _,
            >(FinishLeaseCloseError::FencingExhausted)
            &&& quiet && unknown ==> outcome == Err::<(), _>(
                FinishLeaseCloseError::RecoveryRequired,
            )
            &&& quiet && open && !unknown ==> outcome == Err::<(), _>(
                FinishLeaseCloseError::EffectInFlight,
            )
            &&& quiet && !open && !(state.lease.state is Closing) ==> outcome == Err::<(), _>(
                FinishLeaseCloseError::LeaseTransition(VoiceLeaseTransitionError::WrongState),
            )
            &&& quiet && !open && (state.lease.state matches LeaseStateModel::Closing(owner)
                && owner != id) ==> outcome == Err::<(), _>(
                FinishLeaseCloseError::LeaseTransition(VoiceLeaseTransitionError::WrongOwner),
            )
            &&& quiet && !open && state.lease.state == LeaseStateModel::Closing(id)
                && state.lease.generation.0 == u64::MAX ==> {
                &&& outcome == Err::<(), _>(
                    FinishLeaseCloseError::LeaseTransition(
                        VoiceLeaseTransitionError::GenerationExhausted,
                    ),
                )
                &&& next.lease.state == LeaseStateModel::RecoveryRequired(Some(id))
            }
            &&& !quiet || open || state.lease.state != LeaseStateModel::Closing(id) ==> next
                == state
        }),
{
    lemma_no_effects(state);
}

/// Activating the lease and beginning to close it are left to its owner, whatever else goes on,
/// and concern the lease alone.
pub proof fn the_owner_advances_the_lease(state: AdmissionModel, id: Seq<char>)
    ensures
        state.activate_lease(id).1 is Ok <==> state.lease.state == LeaseStateModel::Acquiring(id),
        state.activate_lease(id).1 is Ok ==> state.activate_lease(id).0 == (AdmissionModel {
            lease: LeaseModel { state: LeaseStateModel::Active(id), ..state.lease },
            ..state
        }),
        state.activate_lease(id).1 is Err ==> state.activate_lease(id).0 == state,
        state.begin_lease_close(id).1 is Ok <==> state.lease.state == LeaseStateModel::Active(id),
        state.begin_lease_close(id).1 is Ok ==> state.begin_lease_close(id).0 == (AdmissionModel {
            lease: LeaseModel { state: LeaseStateModel::Closing(id), ..state.lease },
            ..state
        }),
        state.begin_lease_close(id).1 is Err ==> state.begin_lease_close(id).0 == state,
{
}

/// Nothing is under way exactly if no number is taken.
proof fn lemma_no_effects(state: AdmissionModel)
    ensures
        state.effects != Map::<u64, EffectOperation>::empty() <==> exists|k: u64| #[trigger]
            state.effects.contains_key(k),
{
    if !exists|k: u64| #[trigger] state.effects.contains_key(k) {
        assert(state.effects =~= Map::<u64, EffectOperation>::empty());
    } else {
        let k = choose|k: u64| #[trigger] state.effects.contains_key(k);
        assert(!Map::<u64, EffectOperation>::empty().contains_key(k));
    }
}

/// A fresh controller has a free lease of the first generation, no fence and nothing under way.
pub proof fn a_fresh_controller_holds_nothing()
    ensures
        AdmissionModel::initial() == (AdmissionModel {
            lease: LeaseModel {
                state: LeaseStateModel::Free,
                generation: LeaseGeneration(0),
                exhausted: false,
            },
            idle_epoch: IdleEpoch(0),
            stopping: None,
            stopping_generation: 0,
            fencing_exhausted: false,
            next_effect_operation_id: 0,
            effects: Map::empty(),
        }),
{
}

} // verus!
