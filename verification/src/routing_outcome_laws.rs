//! What each event of a session's turns comes to, read off the origins and the turns alone.

use tokio_util::sync::CancellationToken;
use vstd::prelude::*;
use crate::origin::{InputModel, ScopeModel};
use crate::routing::{BindingModel, OriginModel, RoutesModel};

verus! {

/// An origin is taken note of exactly if it comes from the sealed session with a handoff, and is
/// either new, while fewer than 4096 are known, or known with the same handoff and item. A new one
/// is pending, with the handle that it is given; nothing else changes.
pub proof fn an_arrival_is_taken_note_of(
    routes: RoutesModel,
    input: InputModel,
    token: CancellationToken,
)
    ensures
        ({
            let (next, outcome) = routes.received(input, token);
            let own_session = routes.scope == Some(input.scope);
            let named = input.handoff_id matches Some(id) && id.len() > 0;
            let known = routes.origins.contains_key(input.origin_id);
            let same = {
                &&& input.handoff_id == Some(routes.origins[input.origin_id].handoff_id)
                &&& input.item_id == routes.origins[input.origin_id].item_id
            };
            let room = routes.origins.len() < 4096;
            &&& outcome is Ok <==> own_session && named && (if known {
                same
            } else {
                room
            })
            &&& outcome is Ok && !known ==> next == (RoutesModel {
                origins: routes.origins.insert(
                    input.origin_id,
                    OriginModel {
                        handoff_id: input.handoff_id->0,
                        item_id: input.item_id,
                        turn_id: None,
                        completed: false,
                        token,
                        cancelled: false,
                    },
                ),
                ..routes
            })
            &&& outcome is Err || known ==> next == routes
            &&& !own_session ==> outcome == Err::<(), _>(
                "Voice origin belongs to another native session"@,
            )
            &&& own_session && !named ==> outcome == Err::<(), _>("Voice handoff identity missing"@)
            &&& own_session && named && known && !same ==> outcome == Err::<(), _>(
                "Conflicting Voice origin routing identity"@,
            )
            &&& own_session && named && !known && !room ==> outcome == Err::<(), _>(
                "Voice routing session capacity reached; no implicit eviction"@,
            )
        }),
{
}

/// A turn is bound exactly if its client is a known origin that has no turn yet, the turn has a
/// name that no bound turn has, and the session is sealed. It is bound to that origin, its handoff
/// and the sealed scope. A start that repeats a binding still in force, or that comes from a client
/// that is no origin, is accepted and changes nothing. Everything else is refused.
pub proof fn a_start_binds_a_pending_origin(
    routes: RoutesModel,
    turn: Seq<char>,
    client: Option<Seq<char>>,
)
    ensures
        ({
            let (next, outcome) = routes.started(turn, client);
            let known = client matches Some(id) && routes.origins.contains_key(id);
            let origin = routes.origins[client->0];
            let bound = origin.turn_id is Some;
            let repeated = origin.turn_id == Some(turn) && !origin.completed;
            let taken = routes.turns.contains_key(turn);
            let binds = known && turn.len() > 0 && !bound && !taken && routes.scope is Some;
            &&& outcome is Ok <==> !known || binds || turn.len() > 0 && repeated
            &&& binds ==> next == (RoutesModel {
                scope: routes.scope,
                origins: routes.origins.insert(
                    client->0,
                    OriginModel { turn_id: Some(turn), ..origin },
                ),
                turns: routes.turns.insert(
                    turn,
                    BindingModel {
                        native_session_id: routes.scope->0.native_session_id,
                        voice_session_generation: routes.scope->0.voice_session_generation,
                        turn_id: turn,
                        origin_id: client->0,
                        client_id: client->0,
                        handoff_id: origin.handoff_id,
                    },
                ),
            })
            &&& !binds ==> next == routes
            &&& known && turn.len() == 0 ==> outcome == Err::<(), _>("Voice turn identity missing"@)
            &&& known && turn.len() > 0 && bound && !repeated ==> outcome == Err::<(), _>(
                "Voice origin already bound; no rebind after completion"@,
            )
            &&& known && turn.len() > 0 && !bound && taken ==> outcome == Err::<(), _>(
                "Turn already belongs to another Voice origin"@,
            )
            &&& known && turn.len() > 0 && !bound && !taken && routes.scope is None ==> outcome
                == Err::<(), _>("Voice session is not sealed"@)
        }),
{
}

/// A turn is routed exactly while it is bound and its origin is not complete, by the binding that
/// it was given.
pub proof fn a_turn_is_routed_until_its_origin_is_complete(routes: RoutesModel, turn: Seq<char>)
    requires
        routes.wf(),
    ensures
        routes.binding(turn) is Some <==> routes.turns.contains_key(turn)
            && !routes.origins[routes.turns[turn].origin_id].completed,
        routes.binding(turn) matches Some(binding) ==> binding == routes.turns[turn],
{
    if routes.turns.contains_key(turn) {
        assert(routes.binding_wf(turn, routes.turns[turn]));
    }
}

/// A handoff counts as started exactly if some bound turn speaks for it.
pub proof fn a_handoff_is_started_by_a_bound_turn(
    routes: RoutesModel,
    handoff: Seq<char>,
    turn: Seq<char>,
)
    ensures
        routes.turns.contains_key(turn) ==> routes.was_started(routes.turns[turn].handoff_id),
        routes.was_started(handoff) ==> exists|other: Seq<char>| #[trigger]
            routes.turns.contains_key(other) && routes.turns[other].handoff_id == handoff,
{
}

/// The end of a bound turn completes its origin and requests the cancellation of its handle, and
/// leaves everything else of the origin, every other origin and the scope alone. Completion keeps
/// the bound turns; an abort takes this one out. A turn that is not bound has no end.
pub proof fn an_end_completes_the_origin_of_its_turn(routes: RoutesModel, turn: Seq<char>)
    requires
        routes.wf(),
    ensures
        ({
            let origin = routes.turns[turn].origin_id;
            let ended = routes.origins.insert(
                origin,
                OriginModel { completed: true, cancelled: true, ..routes.origins[origin] },
            );
            &&& routes.turns.contains_key(turn) ==> {
                &&& routes.complete(turn) == (RoutesModel { origins: ended, ..routes })
                &&& routes.abort(turn) == (RoutesModel {
                    origins: ended,
                    turns: routes.turns.remove(turn),
                    ..routes
                })
            }
            &&& !routes.turns.contains_key(turn) ==> {
                &&& routes.complete(turn) == routes
                &&& routes.abort(turn) == routes
            }
        }),
{
    if routes.turns.contains_key(turn) {
        assert(routes.binding_wf(turn, routes.turns[turn]));
    } else {
        assert(routes.turns.remove(turn) =~= routes.turns);
        assert(routes.abort(turn) =~= routes);
    }
}

/// Sealing sets the scope and nothing else; closing takes the scope and the turns, and completes
/// and cancels every origin, which otherwise stays what it was.
pub proof fn sealing_and_closing_change_the_scope(
    routes: RoutesModel,
    scope: ScopeModel,
    origin: Seq<char>,
)
    ensures
        routes.seal(scope) == (RoutesModel { scope: Some(scope), ..routes }),
        routes.close().scope is None,
        routes.close().turns == Map::<Seq<char>, BindingModel>::empty(),
        routes.close().origins.dom() =~= routes.origins.dom(),
        routes.origins.contains_key(origin) ==> routes.close().origins[origin] == (OriginModel {
            completed: true,
            cancelled: true,
            ..routes.origins[origin]
        }),
        RoutesModel::pending() == (RoutesModel {
            scope: None,
            origins: Map::empty(),
            turns: Map::empty(),
        }),
{
}

} // verus!
