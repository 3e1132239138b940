//! What holds of admission whatever is asked of it, and in whatever order.

use vstd::prelude::*;
use crate::voice_control::admission::{
    authorized, expiry, AdmissionModel, BeginStoppingError, BoundaryModel, EffectOperation,
    FenceModel, NotSubmittedReason, PermitModel, ResolveEffectError, SubmissionResolution,
    TicketModel,
};
use crate::voice_control::lease::LeaseStateModel;
use crate::voice_control::provenance::{
    class_of_origin, InputClass, InputEffect, InputOrigin, InputProvenance, SubmissionAuthority,
};

verus! {

/// Everything that can be asked of admission and may change it. Issuing a ticket changes nothing.
pub enum AdmissionAction {
    BeginLeaseAcquire { busy: bool, id: Seq<char> },
    ActivateLease { id: Seq<char> },
    BeginLeaseClose { id: Seq<char> },
    FinishLeaseClose { busy: bool, id: Seq<char> },
    EnterEffectBoundary { busy: bool, ticket: TicketModel, now: u64 },
    ResolveEffectKnown { boundary: BoundaryModel },
    ResolveEffectUnknown { boundary: BoundaryModel },
    RecordIdleTransition,
    BeginStopping { turn_id: Seq<char> },
    FinishStopping { busy: bool, turn_id: Seq<char>, generation: u64 },
}

impl AdmissionModel {
    /// The state after one request, whether it was granted or refused.
    pub open spec fn after(self, action: AdmissionAction) -> AdmissionModel {
        match action {
            AdmissionAction::BeginLeaseAcquire { busy, id } => self.begin_lease_acquire(busy, id).0,
            AdmissionAction::ActivateLease { id } => self.activate_lease(id).0,
            AdmissionAction::BeginLeaseClose { id } => self.begin_lease_close(id).0,
            AdmissionAction::FinishLeaseClose { busy, id } => self.finish_lease_close(busy, id).0,
            AdmissionAction::EnterEffectBoundary { busy, ticket, now } =>
                self.enter_effect_boundary(busy, ticket, now).0,
            AdmissionAction::ResolveEffectKnown { boundary } =>
                self.resolve_effect_known(boundary).0,
            AdmissionAction::ResolveEffectUnknown { boundary } =>
                self.resolve_effect_unknown(boundary).0,
            AdmissionAction::RecordIdleTransition => self.record_idle_transition().0,
            AdmissionAction::BeginStopping { turn_id } => self.begin_stopping(turn_id).0,
            AdmissionAction::FinishStopping { busy, turn_id, generation } =>
                self.finish_stopping(busy, turn_id, generation).0,
        }
    }

    /// The state after a series of requests.
    pub open spec fn after_all(self, actions: Seq<AdmissionAction>) -> AdmissionModel
        decreases actions.len(),
    {
        if actions.len() == 0 {
            self
        } else {
            self.after_all(actions.drop_last()).after(actions.last())
        }
    }
}

/// Every request keeps the state well formed.
pub proof fn every_request_keeps_admission_well_formed(
    state: AdmissionModel,
    action: AdmissionAction,
)
    requires
        state.wf(),
    ensures
        state.after(action).wf(),
{
    let next = state.after(action);
    assert forall|id: u64| #[trigger] next.effects.contains_key(id) implies id
        <= next.next_effect_operation_id by {
        assert(state.effects.contains_key(id) || id == next.next_effect_operation_id);
    }
    if next.has_unknown_effect() {
        let id = choose|id: u64| #[trigger]
            next.effects.contains_key(id) && next.effects[id].state is Unknown;
        assert(state.effects.contains_key(id) || action is EnterEffectBoundary);
        assert(state.effects.contains_key(id));
    }
}

/// So does every series of requests, and a fresh controller starts well formed.
pub proof fn admission_stays_well_formed(state: AdmissionModel, actions: Seq<AdmissionAction>)
    ensures
        AdmissionModel::initial().wf(),
        state.wf() ==> state.after_all(actions).wf(),
    decreases actions.len(),
{
    if actions.len() > 0 && state.wf() {
        admission_stays_well_formed(state, actions.drop_last());
        every_request_keeps_admission_well_formed(
            state.after_all(actions.drop_last()),
            actions.last(),
        );
    }
}

/// A delivery whose result is unknown is never forgotten: whatever follows, it stays unknown.
pub proof fn an_unknown_effect_stays_unknown(
    state: AdmissionModel,
    id: u64,
    actions: Seq<AdmissionAction>,
)
    requires
        state.wf(),
        state.effects.contains_key(id),
        state.effects[id].state is Unknown,
    ensures
        state.after_all(actions).effects.contains_key(id),
        state.after_all(actions).effects[id] == state.effects[id],
    decreases actions.len(),
{
    if actions.len() > 0 {
        an_unknown_effect_stays_unknown(state, id, actions.drop_last());
        admission_stays_well_formed(state, actions.drop_last());
        let before = state.after_all(actions.drop_last());
        assert(before.effects.contains_key(id));
    }
}

/// While the result of a delivery is unknown, and so ever after, the lease requires recovery: it
/// is neither acquired nor freed, and no human input obtains a ticket.
pub proof fn an_unknown_effect_never_releases_the_lease(
    state: AdmissionModel,
    actions: Seq<AdmissionAction>,
    busy: bool,
    id: Seq<char>,
    provenance: InputProvenance,
    authority: SubmissionAuthority,
    voice_lease_id: Option<Seq<char>>,
    now: u64,
    ttl: u64,
)
    requires
        state.wf(),
        state.has_unknown_effect(),
    ensures
        ({
            let later = state.after_all(actions);
            &&& later.has_unknown_effect()
            &&& later.lease.state is RecoveryRequired
            &&& later.begin_lease_acquire(busy, id).1 is Err
            &&& later.finish_lease_close(busy, id).1 is Err
            &&& later.issue_ticket(busy, provenance, authority, voice_lease_id, now, ttl) matches Ok(
                ticket,
            ) ==> ticket.permit is NonHumanInput
        }),
{
    let effect = choose|id: u64| #[trigger]
        state.effects.contains_key(id) && state.effects[id].state is Unknown;
    an_unknown_effect_stays_unknown(state, effect, actions);
    admission_stays_well_formed(state, actions);
}

/// Once a fence has run out of generations admission fails closed for good: nothing is prepared,
/// delivered, acquired or freed any more.
pub proof fn exhausted_fencing_fails_closed(
    state: AdmissionModel,
    actions: Seq<AdmissionAction>,
    busy: bool,
    id: Seq<char>,
    provenance: InputProvenance,
    authority: SubmissionAuthority,
    voice_lease_id: Option<Seq<char>>,
    ticket: TicketModel,
    now: u64,
    ttl: u64,
)
    requires
        state.fencing_exhausted,
    ensures
        ({
            let later = state.after_all(actions);
            &&& later.fencing_exhausted
            &&& later.issue_ticket(busy, provenance, authority, voice_lease_id, now, ttl) is Err
            &&& later.enter_effect_boundary(busy, ticket, now).1 is Err
            &&& later.enter_effect_boundary(busy, ticket, now).0 == later
            &&& later.begin_lease_acquire(busy, id).1 is Err
            &&& later.finish_lease_close(busy, id).1 is Err
        }),
    decreases actions.len(),
{
    if actions.len() > 0 {
        exhausted_fencing_fails_closed(
            state,
            actions.drop_last(),
            busy,
            id,
            provenance,
            authority,
            voice_lease_id,
            ticket,
            now,
            ttl,
        );
    }
}

/// Administrative recovery never obtains a permit.
pub proof fn administrative_recovery_is_never_permitted(
    lease: LeaseStateModel,
    provenance: InputProvenance,
    voice_lease_id: Option<Seq<char>>,
)
    ensures
        authorized(
            lease,
            provenance,
            SubmissionAuthority::AdministrativeRecovery,
            voice_lease_id,
        ) == Err::<PermitModel, _>(NotSubmittedReason::PermissionDenied),
{
}

/// The party whose inputs an authority may submit.
pub open spec fn authority_covers(authority: SubmissionAuthority, class: InputClass) -> bool {
    match authority {
        SubmissionAuthority::ExternalClient => class is ExternalHuman,
        SubmissionAuthority::Voice => class is VoiceHuman,
        SubmissionAuthority::CorrelatedResponse => class is CorrelatedResponse,
        SubmissionAuthority::InternalAgent => class is InternalAgent,
        SubmissionAuthority::System => class is SystemContinuation,
        SubmissionAuthority::AdministrativeRecovery => false,
        SubmissionAuthority::Unknown => class is Unknown,
    }
}

/// Origin and authority must match explicitly. Input that is not human needs nothing else.
pub proof fn provenance_and_authority_must_match(
    lease: LeaseStateModel,
    provenance: InputProvenance,
    authority: SubmissionAuthority,
    voice_lease_id: Option<Seq<char>>,
)
    ensures
        !authority_covers(authority, class_of_origin(provenance.origin)) ==> authorized(
            lease,
            provenance,
            authority,
            voice_lease_id,
        ) == Err::<PermitModel, _>(NotSubmittedReason::PermissionDenied),
        authority_covers(authority, class_of_origin(provenance.origin)) && (
        provenance.origin is CorrelatedResponse || provenance.origin is InternalAgent
            || provenance.origin is SystemContinuation) ==> authorized(
            lease,
            provenance,
            authority,
            voice_lease_id,
        ) == Ok::<_, NotSubmittedReason>(PermitModel::NonHumanInput),
{
}

/// The lease governs human input: while it is not free only voice is admitted, and voice only in
/// the name of the active owner; while it is free only input that is not voice is.
pub proof fn the_lease_governs_human_input(
    lease: LeaseStateModel,
    provenance: InputProvenance,
    authority: SubmissionAuthority,
    voice_lease_id: Option<Seq<char>>,
)
    ensures
        provenance.origin is HumanVoice ==> (authorized(
            lease,
            provenance,
            authority,
            voice_lease_id,
        ) is Ok <==> authority is Voice && lease is Active && voice_lease_id == lease.owner()),
        provenance.origin is HumanExternalClient ==> (authorized(
            lease,
            provenance,
            authority,
            voice_lease_id,
        ) is Ok <==> authority is ExternalClient && lease is Free),
        provenance.origin is Unknown ==> (authorized(
            lease,
            provenance,
            authority,
            voice_lease_id,
        ) is Ok <==> authority is Unknown && lease is Free),
{
}

/// The requested effect plays no part in admission.
pub proof fn the_requested_effect_plays_no_part(
    lease: LeaseStateModel,
    origin: InputOrigin,
    one: InputEffect,
    other: InputEffect,
    authority: SubmissionAuthority,
    voice_lease_id: Option<Seq<char>>,
)
    ensures
        authorized(lease, InputProvenance { origin, effect: one }, authority, voice_lease_id)
            == authorized(
            lease,
            InputProvenance { origin, effect: other },
            authority,
            voice_lease_id,
        ),
{
}

/// Lease generations and idle epochs never go back.
pub proof fn generations_and_epochs_never_go_back(
    state: AdmissionModel,
    actions: Seq<AdmissionAction>,
)
    ensures
        state.lease.generation.0 <= state.after_all(actions).lease.generation.0,
        state.idle_epoch.0 <= state.after_all(actions).idle_epoch.0,
        state.stopping_generation <= state.after_all(actions).stopping_generation,
        state.next_effect_operation_id <= state.after_all(actions).next_effect_operation_id,
    decreases actions.len(),
{
    if actions.len() > 0 {
        generations_and_epochs_never_go_back(state, actions.drop_last());
    }
}

/// A ticket of an earlier lease generation or an earlier idle epoch is refused from then on, and
/// the refusal begins no delivery.
pub proof fn a_stale_ticket_is_refused_for_good(
    state: AdmissionModel,
    actions: Seq<AdmissionAction>,
    ticket: TicketModel,
    busy: bool,
    now: u64,
)
    requires
        ticket.lease_generation.0 < state.lease.generation.0 || ticket.idle_epoch.0
            < state.idle_epoch.0,
    ensures
        state.after_all(actions).enter_effect_boundary(busy, ticket, now).1 is Err,
        state.after_all(actions).enter_effect_boundary(busy, ticket, now).0 == state.after_all(
            actions,
        ),
{
    generations_and_epochs_never_go_back(state, actions);
}

/// The deadline is checked first, and exclusively: at the deadline the ticket has expired, and a
/// deadline that the clock cannot represent has passed at once.
pub proof fn an_expired_ticket_is_refused(
    state: AdmissionModel,
    ticket: TicketModel,
    issued: u64,
    ttl: u64,
    busy: bool,
    now: u64,
)
    requires
        ticket.expires_at == expiry(issued, ttl),
        issued + ttl <= now || issued + ttl > u64::MAX && issued <= now,
    ensures
        state.enter_effect_boundary(busy, ticket, now) == (
            state,
            Err::<BoundaryModel, _>(NotSubmittedReason::TicketExpired),
        ),
{
}

/// A ticket that is used before anything changes, and before its deadline, begins a delivery
/// under an operation number that was never used before.
pub proof fn a_fresh_ticket_begins_a_delivery(
    state: AdmissionModel,
    provenance: InputProvenance,
    authority: SubmissionAuthority,
    voice_lease_id: Option<Seq<char>>,
    issued: u64,
    ttl: u64,
    now: u64,
)
    requires
        state.wf(),
        state.issue_ticket(false, provenance, authority, voice_lease_id, issued, ttl) is Ok,
        now < issued + ttl <= u64::MAX,
        state.next_effect_operation_id < u64::MAX,
    ensures
        ({
            let ticket = state.issue_ticket(
                false,
                provenance,
                authority,
                voice_lease_id,
                issued,
                ttl,
            )->Ok_0;
            let (next, outcome) = state.enter_effect_boundary(false, ticket, now);
            &&& outcome is Ok
            &&& !state.effects.contains_key(outcome->Ok_0.operation_id)
            &&& next.resolvable(outcome->Ok_0) is Ok
            &&& next.resolve_effect_known(outcome->Ok_0).0.effects == state.effects
        }),
{
    let ticket = state.issue_ticket(false, provenance, authority, voice_lease_id, issued, ttl)->Ok_0;
    let (next, outcome) = state.enter_effect_boundary(false, ticket, now);
    assert(next.resolve_effect_known(outcome->Ok_0).0.effects =~= state.effects);
}

/// An open delivery keeps the lease from being acquired or freed.
pub proof fn an_open_effect_prevents_acquire_and_close(
    state: AdmissionModel,
    effect: u64,
    busy: bool,
    id: Seq<char>,
)
    requires
        state.effects.contains_key(effect),
    ensures
        state.begin_lease_acquire(busy, id).1 is Err,
        state.begin_lease_acquire(busy, id).0 == state,
        state.finish_lease_close(busy, id).1 is Err,
        state.finish_lease_close(busy, id).0 == state,
{
    assert(state.effects != Map::<u64, EffectOperation>::empty()) by {
        assert(!Map::<u64, EffectOperation>::empty().contains_key(effect));
    }
}

/// Resolving a delivery concerns that delivery alone.
pub proof fn resolving_one_effect_leaves_the_others(
    state: AdmissionModel,
    boundary: BoundaryModel,
    other: u64,
)
    requires
        other != boundary.operation_id,
    ensures
        state.resolve_effect_known(boundary).0.effects.contains_key(other)
            == state.effects.contains_key(other),
        state.resolve_effect_unknown(boundary).0.effects.contains_key(other)
            == state.effects.contains_key(other),
        state.effects.contains_key(other) ==> state.resolve_effect_known(boundary).0.effects[other]
            == state.effects[other] && state.resolve_effect_unknown(boundary).0.effects[other]
            == state.effects[other],
{
}

/// A handle whose delivery is resolved can resolve nothing any more, whatever deliveries follow.
pub proof fn a_stale_handle_resolves_nothing(
    state: AdmissionModel,
    boundary: BoundaryModel,
    actions: Seq<AdmissionAction>,
)
    requires
        state.wf(),
        state.resolve_effect_known(boundary).1 is Ok,
    ensures
        ({
            let later = state.resolve_effect_known(boundary).0.after_all(actions);
            &&& later.resolve_effect_known(boundary) == (
                later,
                Err::<SubmissionResolution, _>(
                    ResolveEffectError::UnknownOperation,
                ),
            )
            &&& later.resolve_effect_unknown(boundary) == (
                later,
                Err::<SubmissionResolution, _>(
                    ResolveEffectError::UnknownOperation,
                ),
            )
        }),
{
    assert(state.effects.contains_key(boundary.operation_id));
    let resolved = state.resolve_effect_known(boundary).0;
    an_absent_effect_stays_absent(resolved, boundary.operation_id, actions);
}

/// An operation number that was used is not used again.
pub proof fn an_absent_effect_stays_absent(
    state: AdmissionModel,
    id: u64,
    actions: Seq<AdmissionAction>,
)
    requires
        id <= state.next_effect_operation_id,
        !state.effects.contains_key(id),
    ensures
        !state.after_all(actions).effects.contains_key(id),
    decreases actions.len(),
{
    if actions.len() > 0 {
        an_absent_effect_stays_absent(state, id, actions.drop_last());
        generations_and_epochs_never_go_back(state, actions.drop_last());
    }
}

/// While a turn is being stopped nothing is prepared, delivered, acquired or freed, and no second
/// fence is raised.
pub proof fn a_stopping_fence_holds_everything(
    state: AdmissionModel,
    busy: bool,
    id: Seq<char>,
    provenance: InputProvenance,
    authority: SubmissionAuthority,
    voice_lease_id: Option<Seq<char>>,
    ticket: TicketModel,
    turn_id: Seq<char>,
    now: u64,
    ttl: u64,
)
    requires
        state.stopping is Some,
    ensures
        state.issue_ticket(busy, provenance, authority, voice_lease_id, now, ttl) is Err,
        state.enter_effect_boundary(busy, ticket, now).1 is Err,
        state.begin_lease_acquire(busy, id).1 is Err,
        state.finish_lease_close(busy, id).1 is Err,
        state.begin_stopping(turn_id) == (
            state,
            Err::<u64, _>(
                BeginStoppingError::AlreadyStopping,
            ),
        ),
{
}

/// Only its own finalizer lowers a stopping fence, and only while no turn is active. Lowering it
/// outdates every ticket issued before.
pub proof fn only_its_own_finalizer_lowers_a_fence(
    state: AdmissionModel,
    fence: FenceModel,
    action: AdmissionAction,
)
    requires
        state.stopping == Some(fence),
    ensures
        state.after(action).stopping == state.stopping || {
            &&& action == AdmissionAction::FinishStopping {
                busy: false,
                turn_id: fence.turn_id,
                generation: fence.generation,
            }
            &&& state.after(action).stopping is None
            &&& state.after(action).idle_epoch.0 == state.idle_epoch.0 + 1
        },
{
}

/// A finalizer whose fence has been lowered, or replaced, finishes nothing any more.
pub proof fn a_stale_finalizer_finishes_nothing(
    state: AdmissionModel,
    turn_id: Seq<char>,
    generation: u64,
    actions: Seq<AdmissionAction>,
    busy: bool,
)
    requires
        generation <= state.stopping_generation,
        state.stopping matches Some(fence) ==> fence.generation != generation,
    ensures
        ({
            let later = state.after_all(actions);
            &&& later.stopping matches Some(fence) ==> fence.generation != generation
            &&& later.finish_stopping(busy, turn_id, generation) == (later, false)
        }),
    decreases actions.len(),
{
    if actions.len() > 0 {
        a_stale_finalizer_finishes_nothing(state, turn_id, generation, actions.drop_last(), busy);
        generations_and_epochs_never_go_back(state, actions.drop_last());
    }
}

/// How many of a series of requests raise a stopping fence.
pub open spec fn fences_raised(state: AdmissionModel, actions: Seq<AdmissionAction>) -> nat
    decreases actions.len(),
{
    if actions.len() == 0 {
        0
    } else {
        let before = state.after_all(actions.drop_last());
        fences_raised(state, actions.drop_last()) + if actions.last() matches
            AdmissionAction::BeginStopping { turn_id } && before.begin_stopping(turn_id).1 is Ok {
            1nat
        } else {
            0nat
        }
    }
}

/// The stopping generation counts the fences that were raised, so each fence has a generation of
/// its own.
pub proof fn the_stopping_generation_counts_the_fences(
    state: AdmissionModel,
    actions: Seq<AdmissionAction>,
)
    ensures
        state.after_all(actions).stopping_generation == state.stopping_generation + fences_raised(
            state,
            actions,
        ),
    decreases actions.len(),
{
    if actions.len() > 0 {
        the_stopping_generation_counts_the_fences(state, actions.drop_last());
    }
}

/// Whether the result of a delivery is unknown.
pub open spec fn is_unknown(state: AdmissionModel, id: u64) -> bool {
    state.effects.contains_key(id) && state.effects[id].state is Unknown
}

/// Request `i` resolves delivery `id` as unknown, by a handle that could still resolve it.
pub open spec fn loses(
    state: AdmissionModel,
    actions: Seq<AdmissionAction>,
    i: int,
    id: u64,
) -> bool {
    &&& 0 <= i < actions.len()
    &&& actions[i] matches AdmissionAction::ResolveEffectUnknown { boundary } && {
        &&& boundary.operation_id == id
        &&& state.after_all(actions.take(i)).resolvable(boundary) is Ok
    }
}

/// The result of a delivery is unknown exactly if it was, or a request has since resolved it so.
pub proof fn only_an_unknown_resolution_makes_an_effect_unknown(
    state: AdmissionModel,
    actions: Seq<AdmissionAction>,
    id: u64,
)
    requires
        state.wf(),
    ensures
        is_unknown(state.after_all(actions), id) <==> is_unknown(state, id) || exists|i: int|
            loses(state, actions, i, id),
    decreases actions.len(),
{
    if actions.len() > 0 {
        let earlier = actions.drop_last();
        let before = state.after_all(earlier);
        let last = actions.len() - 1;
        only_an_unknown_resolution_makes_an_effect_unknown(state, earlier, id);
        admission_stays_well_formed(state, earlier);
        assert(actions.take(last) =~= earlier);
        assert forall|i: int| 0 <= i < last implies #[trigger] loses(state, actions, i, id)
            == loses(state, earlier, i, id) by {
            assert(actions.take(i) =~= earlier.take(i));
        }
        if is_unknown(before, id) {
            an_unknown_effect_stays_unknown(before, id, seq![actions.last()]);
            assert(seq![actions.last()].drop_last() =~= Seq::<AdmissionAction>::empty());
            assert(before.after_all(Seq::<AdmissionAction>::empty()) == before);
            assert(before.after_all(seq![actions.last()]) == before.after(actions.last()));
            if !is_unknown(state, id) {
                let i = choose|i: int| loses(state, earlier, i, id);
                assert(loses(state, actions, i, id));
            }
        } else {
            if is_unknown(state.after_all(actions), id) {
                assert(loses(state, actions, last, id));
            }
            if exists|i: int| loses(state, actions, i, id) {
                let i = choose|i: int| loses(state, actions, i, id);
                if i < last {
                    assert(loses(state, earlier, i, id));
                }
            }
        }
    }
}

} // verus!
