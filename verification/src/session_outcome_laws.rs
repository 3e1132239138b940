//! What each step of a native session comes to, read off its phase alone.

use vstd::prelude::*;
use crate::ids::ThreadId;
use crate::origin::ScopeModel;
use crate::routing::{BindingModel, RoutesModel};
use crate::session::{EventModel, PhaseModel, SessionModel, SignalModel, StepModel};
use crate::text::is_white_space;

verus! {

/// A signal carries the thread, the start request and the generation of its session, and the event
/// as it was given.
pub proof fn a_signal_names_its_session(session: SessionModel, event: EventModel)
    ensures
        session.signal(event) == (SignalModel {
            thread_id: session.thread_id,
            start_id: session.start_id,
            voice_generation: session.generation,
            event,
        }),
{
}

/// A session begins without an identity and without routes.
pub proof fn a_session_begins_with_nothing(
    thread_id: ThreadId,
    start_id: Seq<char>,
    generation: u64,
)
    ensures
        SessionModel::starting(thread_id, start_id, generation) == (SessionModel {
            thread_id,
            start_id,
            generation,
            phase: PhaseModel::Starting,
            routes: RoutesModel { scope: None, origins: Map::empty(), turns: Map::empty() },
        }),
{
}

/// The provider's identity is taken exactly by a session that has none yet, if it is not blank and
/// has at most 1024 bytes: readiness is then to be announced with that identity and the session's
/// generation. In every other case nothing changes, and the answer says why; a ready session
/// accepts the identity that it has.
pub proof fn an_identity_is_taken_exactly_by_a_starting_session(
    session: SessionModel,
    id: Seq<char>,
)
    ensures
        ({
            let (next, step) = session.observe(id);
            let valid = vstd::utf8::encode_utf8(id).len() <= 1024 && exists|i: int|
                0 <= i < id.len() && !is_white_space(#[trigger] id[i]);
            &&& session.phase is Starting && valid ==> {
                &&& next == (SessionModel {
                    phase: PhaseModel::Sealing(
                        ScopeModel {
                            native_session_id: id,
                            voice_session_generation: session.generation,
                        },
                    ),
                    ..session
                })
                &&& step == StepModel::Deliver(
                    SignalModel {
                        thread_id: session.thread_id,
                        start_id: session.start_id,
                        voice_generation: session.generation,
                        event: EventModel::Ready(id),
                    },
                )
            }
            &&& !(session.phase is Starting && valid) ==> next == session
            &&& session.phase is Starting && !valid ==> step == StepModel::Settled(
                Err("Provider native session identity is invalid"@),
            )
            &&& session.phase is Sealing ==> step == StepModel::Settled(
                Err("Native Voice readiness delivery is unresolved"@),
            )
            &&& session.phase is Closed ==> step == StepModel::Settled(
                Err("Native Voice session is closed"@),
            )
            &&& session.phase matches PhaseModel::Ready(scope) ==> {
                &&& scope.native_session_id == id ==> step == StepModel::Settled(Ok(()))
                &&& scope.native_session_id != id ==> step == StepModel::Settled(
                    Err("Provider changed sealed native session identity"@),
                )
            }
        }),
{
}

/// Delivered readiness makes a session ready under the scope that was announced, and seals that
/// scope into its routes, which keep what they know. Nothing else does.
pub proof fn delivered_readiness_seals_the_announced_scope(
    session: SessionModel,
    delivery: Result<(), Seq<char>>,
)
    ensures
        ({
            let next = session.ready_delivered(delivery);
            &&& delivery is Ok ==> (session.phase matches PhaseModel::Sealing(scope) ==> next
                == (SessionModel {
                phase: PhaseModel::Ready(scope),
                routes: RoutesModel {
                    scope: Some(scope),
                    origins: session.routes.origins,
                    turns: session.routes.turns,
                },
                ..session
            }))
            &&& delivery is Err || !(session.phase is Sealing) ==> next == session
        }),
{
}

/// A session tells its scope exactly while it is ready.
pub proof fn a_scope_is_told_exactly_while_ready(session: SessionModel)
    ensures
        match session.phase {
            PhaseModel::Ready(scope) => session.scope() == Some(scope),
            PhaseModel::Starting => session.scope() is None,
            PhaseModel::Sealing(_) => session.scope() is None,
            PhaseModel::Closed { .. } => session.scope() is None,
        },
{
}

/// Retiring closes a session with the identity that it has, if any, and no announcement tried; a
/// closed session stays as it is. The routes lose their scope and their turns, and every origin
/// is complete and cancelled, with the handle, handoff, item and turn that it had.
pub proof fn retiring_takes_the_authority_and_keeps_the_identity(
    session: SessionModel,
    origin: Seq<char>,
)
    ensures
        ({
            let next = session.retire();
            let known = session.routes.origins[origin];
            let kept = next.routes.origins[origin];
            &&& next.phase == match session.phase {
                PhaseModel::Starting => PhaseModel::Closed {
                    native_session_id: None,
                    delivery: None,
                },
                PhaseModel::Sealing(scope) => PhaseModel::Closed {
                    native_session_id: Some(scope.native_session_id),
                    delivery: None,
                },
                PhaseModel::Ready(scope) => PhaseModel::Closed {
                    native_session_id: Some(scope.native_session_id),
                    delivery: None,
                },
                PhaseModel::Closed { native_session_id, delivery } => PhaseModel::Closed {
                    native_session_id,
                    delivery,
                },
            }
            &&& next.thread_id == session.thread_id
            &&& next.start_id == session.start_id
            &&& next.generation == session.generation
            &&& next.routes.scope is None
            &&& next.routes.turns == Map::<Seq<char>, BindingModel>::empty()
            &&& next.routes.origins.contains_key(origin) <==> session.routes.origins.contains_key(
                origin,
            )
            &&& session.routes.origins.contains_key(origin) ==> {
                &&& kept.completed && kept.cancelled
                &&& kept.token == known.token
                &&& kept.handoff_id == known.handoff_id
                &&& kept.item_id == known.item_id
                &&& kept.turn_id == known.turn_id
            }
        }),
{
}

/// A close is settled only by an announcement that was tried. It is settled with an outcome exactly
/// if the session is closed and that outcome is recorded. For every other session, also one that
/// was retired before, the close is to be announced now, with the identity that readiness was
/// announced with, if it was.
pub proof fn a_close_is_settled_only_by_an_announcement_that_was_tried(
    session: SessionModel,
    outcome: Result<(), Seq<char>>,
)
    ensures
        ({
            let (next, step) = session.begin_close();
            let tried = session.phase matches PhaseModel::Closed { delivery, .. } && delivery
                is Some;
            let identity = match session.phase {
                PhaseModel::Starting => None,
                PhaseModel::Sealing(scope) => Some(scope.native_session_id),
                PhaseModel::Ready(scope) => Some(scope.native_session_id),
                PhaseModel::Closed { native_session_id, .. } => native_session_id,
            };
            &&& step == StepModel::Settled(outcome) <==> (
            session.phase matches PhaseModel::Closed { delivery, .. } && delivery == Some(outcome))
            &&& step is Settled <==> tried
            &&& !tried ==> step == StepModel::Deliver(
                SignalModel {
                    thread_id: session.thread_id,
                    start_id: session.start_id,
                    voice_generation: session.generation,
                    event: EventModel::Closed(identity),
                },
            )
            &&& next == session.retire()
            &&& next.phase matches PhaseModel::Closed { native_session_id, delivery } && {
                &&& native_session_id == identity
                &&& delivery is Some <==> tried
            }
        }),
{
}

/// Retiring a session first makes no difference to what its close announces.
pub proof fn retiring_first_does_not_silence_a_close(session: SessionModel)
    ensures
        session.retire().begin_close().1 == session.begin_close().1,
        session.begin_close().0.begin_close().1 == session.begin_close().1,
{
}

/// What came of the announcement of a close is recorded exactly while it is waited for, as it was
/// reported, and is what every later close is answered.
pub proof fn the_outcome_of_a_close_is_recorded(
    session: SessionModel,
    delivery: Result<(), Seq<char>>,
)
    ensures
        ({
            let next = session.close_delivered(delivery);
            let waiting = session.phase matches PhaseModel::Closed { delivery: None, .. };
            &&& waiting ==> {
                &&& next == (SessionModel {
                    phase: PhaseModel::Closed {
                        native_session_id: session.phase->native_session_id,
                        delivery: Some(delivery),
                    },
                    ..session
                })
                &&& next.begin_close().1 == StepModel::Settled(delivery)
            }
            &&& !waiting ==> next == session
            &&& session.awaits_close_delivery() <==> waiting
        }),
{
}

/// A start that was not delivered closes the session as any close does, and one that was delivered
/// changes nothing.
pub proof fn an_undelivered_start_closes(session: SessionModel, message: Seq<char>)
    ensures
        session.starting_delivered(Ok(())) == (session, None::<StepModel>),
        session.starting_delivered(Err(message)).0 == session.begin_close().0,
        session.starting_delivered(Err(message)).1 == Some(session.begin_close().1),
        session.starting_delivered(Err(message)).0.phase is Closed,
{
}

} // verus!
