//! What holds of a native session whatever the provider reports and however deliveries end.

use vstd::prelude::*;
use crate::ids::ThreadId;
use crate::origin::{origin_is_valid, MAX_IDENTITY_BYTES};
use crate::routing_laws::{every_event_keeps_routes_well_formed, RouteEvent};
use crate::session::{
    provider_identity_is_valid, EventModel, PhaseModel, SessionModel, StepModel,
};
use crate::text::{blank, byte_size};

verus! {

/// Everything that can happen to a session.
pub enum SessionAction {
    StartingDelivered { delivery: Result<(), Seq<char>> },
    Observed { id: Seq<char> },
    ReadyDelivered { delivery: Result<(), Seq<char>> },
    Retired,
    CloseRequested,
    CloseDelivered { delivery: Result<(), Seq<char>> },
    /// An event of its turns; sealing and closing the routes is left to the session.
    Routed { event: RouteEvent },
}

impl SessionModel {
    /// The session after one action.
    pub open spec fn after(self, action: SessionAction) -> SessionModel {
        match action {
            SessionAction::StartingDelivered { delivery } => self.starting_delivered(delivery).0,
            SessionAction::Observed { id } => self.observe(id).0,
            SessionAction::ReadyDelivered { delivery } => self.ready_delivered(delivery),
            SessionAction::Retired => self.retire(),
            SessionAction::CloseRequested => self.begin_close().0,
            SessionAction::CloseDelivered { delivery } => self.close_delivered(delivery),
            SessionAction::Routed { event } => if event is Sealed || event is Closed {
                self
            } else {
                SessionModel { routes: self.routes.after(event), ..self }
            },
        }
    }

    /// The session after a series of actions.
    pub open spec fn after_all(self, actions: Seq<SessionAction>) -> SessionModel
        decreases actions.len(),
    {
        if actions.len() == 0 {
            self
        } else {
            self.after_all(actions.drop_last()).after(actions.last())
        }
    }
}

/// Every action keeps a session well formed, and none changes whose session it is.
pub proof fn every_action_keeps_a_session_well_formed(session: SessionModel, action: SessionAction)
    requires
        session.wf(),
    ensures
        session.after(action).wf(),
        session.after(action).thread_id == session.thread_id,
        session.after(action).start_id == session.start_id,
        session.after(action).generation == session.generation,
{
    match action {
        SessionAction::StartingDelivered { .. } => {
            every_event_keeps_routes_well_formed(session.routes, RouteEvent::Closed);
        },
        SessionAction::ReadyDelivered { .. } => {
            if session.phase is Sealing {
                let scope = session.phase->Sealing_0;
                every_event_keeps_routes_well_formed(session.routes, RouteEvent::Sealed { scope });
            }
        },
        SessionAction::Retired => {
            every_event_keeps_routes_well_formed(session.routes, RouteEvent::Closed);
        },
        SessionAction::CloseRequested => {
            every_event_keeps_routes_well_formed(session.routes, RouteEvent::Closed);
        },
        SessionAction::Routed { event } => {
            every_event_keeps_routes_well_formed(session.routes, event);
        },
        _ => {},
    }
}

/// A session stays well formed, and keeps its identity, through any series of actions.
pub proof fn a_session_stays_well_formed(session: SessionModel, actions: Seq<SessionAction>)
    requires
        session.wf(),
    ensures
        session.after_all(actions).wf(),
        session.after_all(actions).generation == session.generation,
    decreases actions.len(),
{
    if actions.len() > 0 {
        a_session_stays_well_formed(session, actions.drop_last());
        every_action_keeps_a_session_well_formed(
            session.after_all(actions.drop_last()),
            actions.last(),
        );
    }
}

/// A session whose start could not be announced is closed without an identity, and its close is
/// announced; one whose start was announced goes on as it was.
pub proof fn an_unannounced_session_is_closed(
    thread_id: ThreadId,
    start_id: Seq<char>,
    generation: u64,
    message: Seq<char>,
)
    ensures
        ({
            let session = SessionModel::starting(thread_id, start_id, generation);
            let (closed, step) = session.starting_delivered(Err(message));
            &&& session.starting_delivered(Ok(())) == (session, None::<StepModel>)
            &&& closed.phase == (PhaseModel::Closed { native_session_id: None, delivery: None })
            &&& closed.scope() is None
            &&& step == Some(StepModel::Deliver(session.signal(EventModel::Closed(None))))
        }),
{
}

/// A session becomes ready only when the delivery of its readiness succeeded, and for the scope
/// that was announced.
pub proof fn only_delivered_readiness_makes_a_session_ready(
    session: SessionModel,
    action: SessionAction,
)
    requires
        session.scope() is None,
        session.after(action).scope() is Some,
    ensures
        action matches SessionAction::ReadyDelivered { delivery } && delivery is Ok,
        session.phase == PhaseModel::Sealing(session.after(action).scope()->0),
{
}

/// Readiness that could not be delivered seals nothing: the session stays unready, the provider
/// cannot try again, and the close that is left to it still names the announced identity.
pub proof fn undelivered_readiness_stays_unresolved(
    session: SessionModel,
    message: Seq<char>,
    id: Seq<char>,
)
    requires
        session.phase is Sealing,
    ensures
        session.ready_delivered(Err(message)) == session,
        session.scope() is None,
        session.observe(id) == (
            session,
            StepModel::Settled(Err("Native Voice readiness delivery is unresolved"@)),
        ),
        session.retire().phase == (PhaseModel::Closed {
            native_session_id: Some(session.phase->Sealing_0.native_session_id),
            delivery: None,
        }),
{
}

/// A sealed identity does not change: until it closes, the session keeps its scope, whatever
/// identity the provider reports later.
pub proof fn a_sealed_identity_does_not_change(
    session: SessionModel,
    actions: Seq<SessionAction>,
)
    requires
        session.scope() is Some,
    ensures
        match session.after_all(actions).phase {
            PhaseModel::Ready(scope) => Some(scope) == session.scope(),
            PhaseModel::Closed { native_session_id, .. } => native_session_id == Some(
                session.scope()->0.native_session_id,
            ),
            _ => false,
        },
    decreases actions.len(),
{
    if actions.len() > 0 {
        a_sealed_identity_does_not_change(session, actions.drop_last());
    }
}

/// What a ready session is told by the provider is accepted exactly if it repeats the sealed
/// identity, and changes nothing either way.
pub proof fn a_ready_session_accepts_only_its_identity(session: SessionModel, id: Seq<char>)
    requires
        session.scope() is Some,
    ensures
        session.observe(id).0 == session,
        session.observe(id).1 == if session.scope()->0.native_session_id == id {
            StepModel::Settled(Ok(()))
        } else {
            StepModel::Settled(Err("Provider changed sealed native session identity"@))
        },
{
}

/// A closed session never opens again: it has no scope, routes nothing, and refuses every
/// identity.
pub proof fn a_closed_session_stays_closed(
    session: SessionModel,
    actions: Seq<SessionAction>,
    id: Seq<char>,
)
    requires
        session.wf(),
        session.phase is Closed,
    ensures
        session.after_all(actions).phase is Closed,
        session.after_all(actions).phase->native_session_id == session.phase->native_session_id,
        session.after_all(actions).scope() is None,
        session.after_all(actions).routes.scope is None,
        session.after_all(actions).routes.turns.dom() =~= Set::<Seq<char>>::empty(),
        session.after_all(actions).observe(id).1 == StepModel::Settled(
            Err("Native Voice session is closed"@),
        ),
    decreases actions.len(),
{
    if actions.len() > 0 {
        a_closed_session_stays_closed(session, actions.drop_last(), id);
    }
    a_session_stays_well_formed(session, actions);
    let last = session.after_all(actions).routes;
    assert forall|turn: Seq<char>| !last.turns.dom().contains(turn) by {
        if last.turns.contains_key(turn) {
            assert(last.binding_wf(turn, last.turns[turn]));
        }
    }
}

/// Retiring a session closes it and leaves nothing routed.
pub proof fn a_retired_session_is_closed(session: SessionModel)
    ensures
        session.retire().phase is Closed,
        session.retire().scope() is None,
        session.retire().routes.turns.dom() =~= Set::<Seq<char>>::empty(),
{
}

/// Action `i` is the provider naming the session `id`, upon which readiness was handed out with
/// that identity.
pub open spec fn announces(
    session: SessionModel,
    actions: Seq<SessionAction>,
    i: int,
    id: Seq<char>,
) -> bool {
    &&& 0 <= i < actions.len()
    &&& actions[i] == SessionAction::Observed { id }
    &&& session.after_all(actions.take(i)).observe(id).1 == StepModel::Deliver(
        session.signal(EventModel::Ready(id)),
    )
}

/// The identity that a session holds, and that its close carries, is the one that its readiness
/// was announced with; where none was announced the close carries none.
pub proof fn a_close_carries_the_announced_identity(
    session: SessionModel,
    actions: Seq<SessionAction>,
    id: Seq<char>,
)
    requires
        session.phase is Starting,
    ensures
        session.after_all(actions).announced() == Some(id) <==> exists|i: int|
            announces(session, actions, i, id),
        session.after_all(actions).begin_close().1 matches StepModel::Deliver(signal)
            ==> signal == session.signal(
            EventModel::Closed(session.after_all(actions).announced()),
        ),
    decreases actions.len(),
{
    lemma_names_are_kept(session, actions);
    if actions.len() > 0 {
        let earlier = actions.drop_last();
        let before = session.after_all(earlier);
        let last = actions.len() - 1;
        a_close_carries_the_announced_identity(session, earlier, id);
        lemma_names_are_kept(session, earlier);
        assert(actions.take(last) =~= earlier);
        assert forall|i: int| 0 <= i < last implies #[trigger] announces(session, actions, i, id)
            == announces(session, earlier, i, id) by {
            assert(actions.take(i) =~= earlier.take(i));
        }
        if before.announced() == Some(id) {
            let i = choose|i: int| announces(session, earlier, i, id);
            assert(announces(session, actions, i, id));
        }
        if session.after_all(actions).announced() == Some(id) && before.announced() != Some(id) {
            assert(announces(session, actions, last, id));
        }
        if exists|i: int| announces(session, actions, i, id) {
            let i = choose|i: int| announces(session, actions, i, id);
            if i < last {
                assert(announces(session, earlier, i, id));
            }
        }
    }
}

/// No action changes whose session it is.
proof fn lemma_names_are_kept(session: SessionModel, actions: Seq<SessionAction>)
    ensures
        session.after_all(actions).thread_id == session.thread_id,
        session.after_all(actions).start_id == session.start_id,
        session.after_all(actions).generation == session.generation,
    decreases actions.len(),
{
    if actions.len() > 0 {
        lemma_names_are_kept(session, actions.drop_last());
    }
}

/// What came of announcing the close stands: closing again repeats it without another
/// announcement, and no later report turns a failure into an acknowledgement.
pub proof fn a_close_is_announced_once(
    session: SessionModel,
    delivery: Result<(), Seq<char>>,
    actions: Seq<SessionAction>,
)
    requires
        session.awaits_close_delivery(),
    ensures
        session.close_delivered(delivery).after_all(actions).begin_close().1 == StepModel::Settled(
            delivery,
        ),
    decreases actions.len(),
{
    let closed = session.close_delivered(delivery);
    lemma_delivery_is_kept(closed, actions);
}

proof fn lemma_delivery_is_kept(session: SessionModel, actions: Seq<SessionAction>)
    requires
        session.phase matches PhaseModel::Closed { delivery, .. } && delivery is Some,
    ensures
        session.after_all(actions).phase == session.phase,
    decreases actions.len(),
{
    if actions.len() > 0 {
        lemma_delivery_is_kept(session, actions.drop_last());
    }
}

/// The scope of a ready session can originate submissions: an origin made under it fails only
/// over the handoff or the text.
pub proof fn a_ready_scope_can_originate(
    session: SessionModel,
    handoff_id: Seq<char>,
    item_id: Seq<char>,
    text: Seq<char>,
)
    requires
        session.wf(),
        session.scope() is Some,
    ensures
        origin_is_valid(session.scope()->0, handoff_id, item_id, text) <==> {
            &&& 0 < handoff_id.len()
            &&& byte_size(handoff_id) <= MAX_IDENTITY_BYTES
            &&& byte_size(item_id) <= MAX_IDENTITY_BYTES
            &&& !blank(text)
        },
{
    let id = session.scope()->0.native_session_id;
    assert(provider_identity_is_valid(id));
    if id.len() == 0 {
        assert(blank(id));
    }
}

} // verus!
