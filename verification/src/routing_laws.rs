//! What holds of the routes of a session whatever arrives, starts and ends, in whatever order.

use tokio_util::sync::CancellationToken;
use vstd::prelude::*;
use crate::origin::{InputModel, ScopeModel};
use crate::routing::{BindingModel, RoutesModel, MAX_SESSION_ORIGINS};

verus! {

/// Everything that can happen to the routes of a session.
pub enum RouteEvent {
    Sealed { scope: ScopeModel },
    Received { input: InputModel, token: CancellationToken },
    Started { turn_id: Seq<char>, client_id: Option<Seq<char>> },
    Completed { turn_id: Seq<char> },
    Aborted { turn_id: Seq<char> },
    Closed,
}

impl RoutesModel {
    /// The routes after one event. A scope is sealed only where there is none.
    pub open spec fn after(self, event: RouteEvent) -> RoutesModel {
        match event {
            RouteEvent::Sealed { scope } => if self.scope is None {
                self.seal(scope)
            } else {
                self
            },
            RouteEvent::Received { input, token } => self.received(input, token).0,
            RouteEvent::Started { turn_id, client_id } => self.started(turn_id, client_id).0,
            RouteEvent::Completed { turn_id } => self.complete(turn_id),
            RouteEvent::Aborted { turn_id } => self.abort(turn_id),
            RouteEvent::Closed => self.close(),
        }
    }

    /// The routes after a series of events.
    pub open spec fn after_all(self, events: Seq<RouteEvent>) -> RoutesModel
        decreases events.len(),
    {
        if events.len() == 0 {
            self
        } else {
            self.after_all(events.drop_last()).after(events.last())
        }
    }
}

/// Every event keeps the routes well formed; in particular no session knows more origins than it
/// may bring up.
pub proof fn every_event_keeps_routes_well_formed(routes: RoutesModel, event: RouteEvent)
    requires
        routes.wf(),
    ensures
        routes.after(event).wf(),
        routes.after(event).origins.len() <= MAX_SESSION_ORIGINS,
{
    let next = routes.after(event);
    assert forall|turn: Seq<char>| #[trigger] next.turns.contains_key(turn) implies next.binding_wf(
        turn,
        next.turns[turn],
    ) by {
        if routes.turns.contains_key(turn) {
            assert(routes.binding_wf(turn, routes.turns[turn]));
        }
    }
    assert forall|origin: Seq<char>| #[trigger] next.origins.contains_key(origin) implies
        next.origins[origin].cancelled == next.origins[origin].completed by {
        if routes.origins.contains_key(origin) {
            assert(routes.origins[origin].cancelled == routes.origins[origin].completed);
        }
    }
    if event is Closed {
        assert(next.origins.dom() =~= routes.origins.dom());
    }
    if event is Started || event is Completed || event is Aborted {
        assert(next.origins.dom() =~= routes.origins.dom());
    }
}

pub proof fn routes_stay_well_formed(routes: RoutesModel, events: Seq<RouteEvent>)
    requires
        routes.wf(),
    ensures
        routes.after_all(events).wf(),
    decreases events.len(),
{
    if events.len() > 0 {
        routes_stay_well_formed(routes, events.drop_last());
        every_event_keeps_routes_well_formed(
            routes.after_all(events.drop_last()),
            events.last(),
        );
    }
}

/// Every event keeps the cancellations of the origins apart, provided that an arrival is given a
/// new handle.
pub proof fn every_event_keeps_cancellations_apart(routes: RoutesModel, event: RouteEvent)
    requires
        routes.wf(),
        routes.cancellations_apart(),
        event matches RouteEvent::Received { token, .. } ==> routes.is_new_handle(token),
    ensures
        routes.after(event).cancellations_apart(),
{
    let next = routes.after(event);
    assert forall|a: Seq<char>, b: Seq<char>| #[trigger]
        next.origins.contains_key(a) && #[trigger] next.origins.contains_key(b) && a != b implies
        next.origins[a].token != next.origins[b].token by {
        assert(routes.origins.contains_key(a) || event is Received);
        assert(routes.origins.contains_key(b) || event is Received);
    }
}

/// So does every series of events, beginning with a session that has brought up nothing.
pub proof fn cancellations_stay_apart(routes: RoutesModel, events: Seq<RouteEvent>)
    requires
        routes.wf(),
        forall|i: int|
            0 <= i < events.len() && #[trigger] events[i] is Received ==> routes.after_all(
                events.take(i),
            ).is_new_handle(events[i]->token),
    ensures
        RoutesModel::pending().cancellations_apart(),
        routes.cancellations_apart() ==> routes.after_all(events).cancellations_apart(),
    decreases events.len(),
{
    if events.len() > 0 && routes.cancellations_apart() {
        let earlier = events.drop_last();
        assert forall|i: int| 0 <= i < earlier.len() && #[trigger] earlier[i] is Received implies
            routes.after_all(earlier.take(i)).is_new_handle(earlier[i]->token) by {
            assert(earlier.take(i) =~= events.take(i));
            assert(events[i] is Received);
        }
        cancellations_stay_apart(routes, earlier);
        routes_stay_well_formed(routes, earlier);
        assert(events.take(events.len() - 1) =~= earlier);
        assert(events[events.len() - 1] == events.last());
        every_event_keeps_cancellations_apart(routes.after_all(earlier), events.last());
    }
}

/// The end of a turn cancels its own output alone: the handle of every other turn is another one,
/// and every other origin is left as it was, with a handle that was not cancelled on this account.
pub proof fn the_end_of_a_turn_cancels_its_output_alone(
    routes: RoutesModel,
    ended: Seq<char>,
    other_turn: Seq<char>,
    other_origin: Seq<char>,
)
    requires
        routes.wf(),
        routes.cancellations_apart(),
        routes.turns.contains_key(ended),
    ensures
        ({
            let token = routes.origins[routes.turns[ended].origin_id].token;
            &&& routes.turns.contains_key(other_turn) && other_turn != ended
                ==> routes.origins[routes.turns[other_turn].origin_id].token != token
            &&& routes.origins.contains_key(other_origin) && other_origin
                != routes.turns[ended].origin_id ==> {
                &&& routes.origins[other_origin].token != token
                &&& routes.complete(ended).origins[other_origin] == routes.origins[other_origin]
                &&& routes.abort(ended).origins[other_origin] == routes.origins[other_origin]
            }
        }),
{
    assert(routes.binding_wf(ended, routes.turns[ended]));
    if routes.turns.contains_key(other_turn) {
        assert(routes.binding_wf(other_turn, routes.turns[other_turn]));
    }
}

/// An origin that arrives anew is given a cancellation that is not requested and that no other
/// origin has, so nothing that has ended has cancelled it.
pub proof fn an_arrival_gets_a_cancellation_of_its_own(
    routes: RoutesModel,
    input: InputModel,
    token: CancellationToken,
    other: Seq<char>,
)
    requires
        routes.is_new_handle(token),
        !routes.origins.contains_key(input.origin_id),
        routes.received(input, token).1 is Ok,
        routes.origins.contains_key(other),
    ensures
        ({
            let next = routes.received(input, token).0;
            &&& next.origins[input.origin_id].token == token
            &&& !next.origins[input.origin_id].cancelled
            &&& next.origins[other] == routes.origins[other]
            &&& next.origins[other].token != token
        }),
{
}

/// No origin is ever forgotten or given another identity: its handoff, its item and the
/// cancellation of its output stay what they were, it keeps the turn it was bound to, and once
/// complete it stays complete.
pub proof fn an_origin_is_never_forgotten(
    routes: RoutesModel,
    origin: Seq<char>,
    events: Seq<RouteEvent>,
)
    requires
        routes.wf(),
        routes.origins.contains_key(origin),
    ensures
        ({
            let now = routes.origins[origin];
            let later = routes.after_all(events).origins[origin];
            &&& routes.after_all(events).origins.contains_key(origin)
            &&& later.handoff_id == now.handoff_id
            &&& later.item_id == now.item_id
            &&& later.token == now.token
            &&& now.turn_id is Some ==> later.turn_id == now.turn_id
            &&& now.completed ==> later.completed && later.cancelled
        }),
    decreases events.len(),
{
    if events.len() > 0 {
        an_origin_is_never_forgotten(routes, origin, events.drop_last());
        let before = routes.after_all(events.drop_last());
        assert(before.origins.contains_key(origin));
        routes_stay_well_formed(routes, events.drop_last());
        routes_stay_well_formed(routes, events);
        assert(routes.after_all(events) == before.after(events.last()));
        assert(routes.after_all(events).origins.contains_key(origin));
    } else {
        assert(routes.origins[origin].cancelled == routes.origins[origin].completed);
    }
}

/// Arrival is not a start: it changes the route of no turn and starts no handoff.
pub proof fn an_arrival_starts_nothing(
    routes: RoutesModel,
    input: InputModel,
    token: CancellationToken,
    turn: Seq<char>,
    handoff: Seq<char>,
)
    requires
        routes.wf(),
    ensures
        routes.received(input, token).0.turns == routes.turns,
        routes.received(input, token).0.binding(turn) == routes.binding(turn),
        routes.received(input, token).0.was_started(handoff) == routes.was_started(handoff),
{
    if routes.turns.contains_key(turn) {
        assert(routes.binding_wf(turn, routes.turns[turn]));
    }
}

/// The same arrival twice is one arrival.
pub proof fn a_repeated_arrival_changes_nothing(
    routes: RoutesModel,
    input: InputModel,
    token: CancellationToken,
    other_token: CancellationToken,
)
    requires
        routes.received(input, token).1 is Ok,
    ensures
        ({
            let once = routes.received(input, token).0;
            once.received(input, other_token) == (once, Ok::<(), Seq<char>>(()))
        }),
{
}

/// A turn that starts for a client that is no known origin gains no route.
pub proof fn an_unknown_client_gains_no_route(
    routes: RoutesModel,
    turn: Seq<char>,
    client: Option<Seq<char>>,
)
    requires
        client is None || !routes.origins.contains_key(client->0),
    ensures
        routes.started(turn, client) == (routes, Ok::<(), Seq<char>>(())),
{
}

/// An accepted start of a pending origin routes the turn to that origin and its handoff.
pub proof fn an_accepted_start_routes_the_turn(
    routes: RoutesModel,
    turn: Seq<char>,
    client: Seq<char>,
)
    requires
        routes.wf(),
        routes.origins.contains_key(client),
        routes.origins[client].turn_id is None,
        !routes.origins[client].completed,
        routes.started(turn, Some(client)).1 is Ok,
    ensures
        ({
            let next = routes.started(turn, Some(client)).0;
            &&& routes.scope is Some
            &&& next.binding(turn) == Some(
                BindingModel {
                    native_session_id: routes.scope->0.native_session_id,
                    voice_session_generation: routes.scope->0.voice_session_generation,
                    turn_id: turn,
                    origin_id: client,
                    client_id: client,
                    handoff_id: routes.origins[client].handoff_id,
                },
            )
            &&& next.was_started(routes.origins[client].handoff_id)
        }),
{
    let next = routes.started(turn, Some(client)).0;
    assert(next.turns.contains_key(turn));
}

/// An origin is bound to one turn for good: no other turn is ever bound to it, and once it is
/// complete not even its own is again.
pub proof fn an_origin_is_never_bound_again(
    routes: RoutesModel,
    origin: Seq<char>,
    events: Seq<RouteEvent>,
    turn: Seq<char>,
)
    requires
        routes.wf(),
        routes.origins.contains_key(origin),
        routes.origins[origin].turn_id is Some,
        routes.origins[origin].turn_id != Some(turn) || routes.origins[origin].completed,
    ensures
        ({
            let later = routes.after_all(events);
            &&& later.started(turn, Some(origin)).1 is Err
            &&& later.started(turn, Some(origin)).0 == later
            &&& later.binding(turn) matches Some(binding) ==> binding.origin_id != origin
        }),
{
    an_origin_is_never_forgotten(routes, origin, events);
    routes_stay_well_formed(routes, events);
    let later = routes.after_all(events);
    if later.turns.contains_key(turn) {
        assert(later.binding_wf(turn, later.turns[turn]));
    }
}

/// Once the turn that an origin is bound to has completed or was aborted, the origin is bound to no
/// turn again, not even to that one.
pub proof fn an_origin_whose_turn_ended_is_never_bound_again(
    routes: RoutesModel,
    origin: Seq<char>,
    ended: Seq<char>,
    events: Seq<RouteEvent>,
    turn: Seq<char>,
)
    requires
        routes.wf(),
        routes.origins.contains_key(origin),
        routes.origins[origin].turn_id == Some(ended),
    ensures
        ({
            let later = routes.complete(ended).after_all(events);
            &&& later.started(turn, Some(origin)).1 is Err
            &&& later.started(turn, Some(origin)).0 == later
            &&& later.binding(turn) matches Some(binding) ==> binding.origin_id != origin
        }),
        ({
            let later = routes.abort(ended).after_all(events);
            &&& later.started(turn, Some(origin)).1 is Err
            &&& later.started(turn, Some(origin)).0 == later
            &&& later.binding(turn) matches Some(binding) ==> binding.origin_id != origin
        }),
{
    assert(routes.origin_wf(origin, routes.origins[origin]));
    every_event_keeps_routes_well_formed(routes, RouteEvent::Completed { turn_id: ended });
    every_event_keeps_routes_well_formed(routes, RouteEvent::Aborted { turn_id: ended });
    an_origin_is_never_bound_again(routes.complete(ended), origin, events, turn);
    an_origin_is_never_bound_again(routes.abort(ended), origin, events, turn);
}

/// The end of one turn concerns that turn alone: pending origins stay pending, and every other
/// turn keeps its route.
pub proof fn the_end_of_a_turn_leaves_the_others(
    routes: RoutesModel,
    ended: Seq<char>,
    other: Seq<char>,
    pending: Seq<char>,
)
    requires
        routes.wf(),
        other != ended,
        routes.origins.contains_key(pending),
        routes.origins[pending].turn_id is None,
    ensures
        routes.complete(ended).binding(other) == routes.binding(other),
        routes.abort(ended).binding(other) == routes.binding(other),
        routes.complete(ended).origins[pending] == routes.origins[pending],
        routes.abort(ended).origins[pending] == routes.origins[pending],
{
    if routes.turns.contains_key(ended) {
        assert(routes.binding_wf(ended, routes.turns[ended]));
    }
    if routes.turns.contains_key(other) {
        assert(routes.binding_wf(other, routes.turns[other]));
    }
}

/// The end of a turn requests the cancellation that was handed out for its output, and takes its
/// route. A completed turn still lets the last output of its handoff drain; an aborted one does
/// not, unless another turn speaks for a handoff of the same name.
pub proof fn the_end_of_a_turn_takes_its_route(
    routes: RoutesModel,
    turn: Seq<char>,
    handoff: Seq<char>,
)
    requires
        routes.wf(),
        routes.turns.contains_key(turn),
    ensures
        routes.complete(turn).binding(turn) is None,
        routes.complete(turn).was_started(handoff) == routes.was_started(handoff),
        routes.complete(turn).origins[routes.turns[turn].origin_id].cancelled,
        routes.complete(turn).origins[routes.turns[turn].origin_id].token
            == routes.origins[routes.turns[turn].origin_id].token,
        routes.abort(turn).binding(turn) is None,
        routes.abort(turn).origins[routes.turns[turn].origin_id].cancelled,
        routes.abort(turn).origins[routes.turns[turn].origin_id].token
            == routes.origins[routes.turns[turn].origin_id].token,
        routes.abort(turn).was_started(handoff) <==> exists|other: Seq<char>|
            other != turn && #[trigger] routes.turns.contains_key(other)
                && routes.turns[other].handoff_id == handoff,
{
    assert(routes.binding_wf(turn, routes.turns[turn]));
    if routes.abort(turn).was_started(handoff) {
        let other = choose|other: Seq<char>| #[trigger]
            routes.abort(turn).turns.contains_key(other)
                && routes.abort(turn).turns[other].handoff_id == handoff;
        assert(routes.turns.contains_key(other));
    }
    if exists|other: Seq<char>|
        other != turn && #[trigger] routes.turns.contains_key(other)
            && routes.turns[other].handoff_id == handoff {
        let other = choose|other: Seq<char>|
            other != turn && #[trigger] routes.turns.contains_key(other)
                && routes.turns[other].handoff_id == handoff;
        assert(routes.abort(turn).turns.contains_key(other));
    }
}

/// Ending a turn twice is ending it once.
pub proof fn a_turn_ends_once(routes: RoutesModel, turn: Seq<char>)
    ensures
        routes.complete(turn).complete(turn) == routes.complete(turn),
        routes.abort(turn).abort(turn) == routes.abort(turn),
        routes.abort(turn).complete(turn) == routes.abort(turn),
{
    assert(routes.complete(turn).complete(turn) =~= routes.complete(turn));
    assert(routes.abort(turn).abort(turn) =~= routes.abort(turn));
}

/// Closing a session ends everything: no turn is routed, every cancellation that was handed out is
/// requested, and nothing that arrives or starts afterwards is accepted, whatever ends in between.
pub proof fn nothing_is_routed_after_close(
    routes: RoutesModel,
    events: Seq<RouteEvent>,
    turn: Seq<char>,
    origin: Seq<char>,
    handoff: Seq<char>,
    input: InputModel,
    token: CancellationToken,
)
    requires
        forall|i: int| 0 <= i < events.len() ==> !(#[trigger] events[i] is Sealed),
    ensures
        ({
            let later = routes.close().after_all(events);
            &&& later == routes.close()
            &&& later.binding(turn) is None
            &&& !later.was_started(handoff)
            &&& later.received(input, token).1 is Err
            &&& later.origins.contains_key(origin) == routes.origins.contains_key(origin)
            &&& later.origins.contains_key(origin) ==> {
                &&& later.origins[origin] == routes.origins[origin].retired()
                &&& later.origins[origin].cancelled
                &&& later.origins[origin].token == routes.origins[origin].token
                &&& later.started(turn, Some(origin)).1 is Err
            }
        }),
    decreases events.len(),
{
    let closed = routes.close();
    if events.len() > 0 {
        nothing_is_routed_after_close(
            routes,
            events.drop_last(),
            turn,
            origin,
            handoff,
            input,
            token,
        );
        assert(!(events.last() is Sealed));
        assert(closed.close().origins =~= closed.origins);
        assert(closed.close() =~= closed);
        let last = events.last();
        if last is Aborted {
            assert(closed.abort(last->Aborted_turn_id) =~= closed);
        }
        assert(closed.after(last) == closed);
    }
}

} // verus!
