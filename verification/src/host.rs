//! What a host hands on between the session and the queue.

use vstd::prelude::*;
use crate::ids::{uuid_text, ThreadId};
use crate::origin::{
    admitted_input, origin_is_valid, InputModel, ScopeModel, VoiceAdmissionAck,
    VoiceAdmissionInput,
};
use crate::receipt::{
    EnqueueOutcomeModel, QueueOriginModel, VoiceAdmissionReceipt, VoiceQueueOrigin,
};
use crate::session::SessionModel;
use crate::store_laws::{an_origin_is_enqueued_once, StoreRequest};
use crate::store_model::StoreModel;

verus! {

/// A piece of what a user puts in.
#[derive(Debug, PartialEq, Eq)]
pub enum UserInput {
    Text { text: String },
}

/// What a turn is started with.
#[derive(Debug, PartialEq, Eq)]
pub enum TurnInput {
    UserInput { content: Vec<UserInput>, client_id: Option<String> },
}

/// The origin under which a submission is queued.
pub open spec fn queue_origin(input: InputModel) -> QueueOriginModel {
    QueueOriginModel {
        native_session_id: input.scope.native_session_id,
        voice_session_generation: input.scope.voice_session_generation,
        origin_id: input.origin_id,
        handoff_id: input.handoff_id,
        item_id: input.item_id,
    }
}

/// What the queue is asked for an admission: the thread, the text as one piece of user input with
/// the origin as its client, and the origin itself.
pub fn queue_request(input: VoiceAdmissionInput) -> (request: (
    ThreadId,
    TurnInput,
    VoiceQueueOrigin,
))
    ensures
        request.0 == input.thread_id,
        request.1 matches TurnInput::UserInput { content, client_id } && {
            &&& content@ == seq![UserInput::Text { text: input.text }]
            &&& client_id == Some(input.origin_id)
        },
        request.2@ == queue_origin(input@),
        request.2.native_session_id == input.scope.native_session_id,
        request.2.voice_session_generation == input.scope.voice_session_generation,
        request.2.origin_id == input.origin_id,
        request.2.handoff_id == input.handoff_id,
        request.2.item_id == input.item_id,
{
    let client_id = Some(input.origin_id.clone());
    let mut content: Vec<UserInput> = Vec::new();
    content.push(UserInput::Text { text: input.text });
    (
        input.thread_id,
        TurnInput::UserInput { content, client_id },
        VoiceQueueOrigin {
            native_session_id: input.scope.native_session_id,
            voice_session_generation: input.scope.voice_session_generation,
            origin_id: input.origin_id,
            handoff_id: input.handoff_id,
            item_id: input.item_id,
        },
    )
}

/// What the session is told once the queue has answered.
pub fn admission_answer(receipt: Result<VoiceAdmissionReceipt, String>) -> (answer: Result<
    VoiceAdmissionAck,
    String,
>)
    ensures
        match receipt {
            Ok(receipt) => answer == Ok::<_, String>(
                VoiceAdmissionAck { queued_item_id: receipt.queued_item_id },
            ),
            Err(message) => answer == Err::<VoiceAdmissionAck, _>(message),
        },
{
    match receipt {
        Ok(receipt) => Ok(VoiceAdmissionAck { queued_item_id: receipt.queued_item_id }),
        Err(message) => Err(message),
    }
}

/// What a ready session admits is a valid request to the queue: the queue finds nothing wrong
/// with the origin, once the payload names it as its client.
pub proof fn what_a_ready_session_admits_can_be_queued(
    session: SessionModel,
    handoff_id: Seq<char>,
    item_id: Seq<char>,
    text: Seq<char>,
)
    requires
        session.wf(),
        session.scope() is Some,
        origin_is_valid(session.scope()->0, handoff_id, item_id, text),
    ensures
        ({
            let input = admitted_input(
                session.thread_id,
                session.scope()->0,
                handoff_id,
                item_id,
                text,
            );
            StoreModel::enqueue_refusal(
                queue_origin(input),
                Ok(Some(queue_origin(input).origin_id)),
            ) is None
        }),
{
    let input = admitted_input(
        session.thread_id,
        session.scope()->0,
        handoff_id,
        item_id,
        text,
    );
    assert(input.origin_id.len() > 0);
}

/// A handoff is queued once: as soon as a receipt is held for it, no submission of the same handoff
/// under the same scope is queued again, whatever its item and its text, and whatever was requested
/// in between.
pub proof fn a_handoff_is_queued_once(
    thread_id: ThreadId,
    scope: ScopeModel,
    handoff_id: Seq<char>,
    one: (Seq<char>, Seq<char>),
    other: (Seq<char>, Seq<char>),
    store: StoreModel,
    i: int,
    requests: Seq<StoreRequest>,
    payload: Seq<char>,
    client: Result<Option<Seq<char>>, Seq<char>>,
    id: Seq<char>,
    now: i64,
)
    requires
        store.wf(),
        store.holds_origin(
            uuid_text(thread_id.uuid),
            queue_origin(
                admitted_input(thread_id, scope, handoff_id, one.0, one.1),
            ).origin_id,
            i,
        ),
    ensures
        ({
            let later = store.after_all(requests);
            let (next, outcome) = later.enqueue(
                uuid_text(thread_id.uuid),
                payload,
                queue_origin(admitted_input(thread_id, scope, handoff_id, other.0, other.1)),
                client,
                id,
                now,
            );
            next == later && !(outcome matches Ok(EnqueueOutcomeModel::Inserted(_)))
        }),
{
    let origin = queue_origin(admitted_input(thread_id, scope, handoff_id, other.0, other.1));
    an_origin_is_enqueued_once(store, requests, i, payload, origin, client, id, now);
}

} // verus!
