//! A handoff on its way from the session through the queue.

use std::collections::BTreeMap;

use voice_admission::host::{admission_answer, queue_request, TurnInput, UserInput};
use voice_admission::ids::ThreadId;
use voice_admission::origin::{
    voice_admission_input, RealtimeHandoffRequested, VoiceAdmissionInput,
};
use voice_admission::receipt::{VoiceClaimOutcome, VoiceEnqueueOutcome};
use voice_admission::session::{
    NativeVoiceSession, NativeVoiceSessionStart, RealtimeEvent, SessionStep,
};
use voice_admission::store::SqliteQueueStore;
use voice_admission::store_model::{Refusal, VoiceQueueError};

fn ready_session() -> NativeVoiceSession {
    let start = NativeVoiceSessionStart {
        thread_id: ThreadId::new(),
        start_id: "start".to_string(),
    };
    let (mut session, _) = NativeVoiceSession::begin(start, &mut 0).unwrap();
    let event = RealtimeEvent::SessionUpdated {
        realtime_session_id: "provider \"A\"".to_string(),
        instructions: None,
    };
    assert!(matches!(session.observe(&event), SessionStep::Deliver(_)));
    session.ready_delivered(Ok(())).unwrap();
    session
}

fn admitted(session: &NativeVoiceSession, handoff_id: &str, text: &str) -> VoiceAdmissionInput {
    let handoff = RealtimeHandoffRequested {
        handoff_id: handoff_id.to_string(),
        item_id: "item".to_string(),
        input_transcript: text.to_string(),
    };
    let scope = session.scope().unwrap();
    voice_admission_input(session.thread_id(), &scope, &handoff, text.to_string()).unwrap()
}

fn payload(turn: &TurnInput) -> String {
    let TurnInput::UserInput { content, client_id } = turn;
    let texts: Vec<&String> = content.iter().map(|UserInput::Text { text }| text).collect();
    let mut fields: BTreeMap<&str, serde_json::Value> = BTreeMap::new();
    fields.insert("client_id", serde_json::to_value(client_id).unwrap());
    fields.insert("content", serde_json::to_value(texts).unwrap());
    let mut input: BTreeMap<&str, BTreeMap<&str, serde_json::Value>> = BTreeMap::new();
    input.insert("UserInput", fields);
    serde_json::to_string(&input).unwrap()
}

#[test]
fn what_a_ready_session_admits_is_queued_and_routed() {
    let mut session = ready_session();
    let mut queue = SqliteQueueStore::load(8, Vec::new(), Vec::new()).unwrap();
    let input = admitted(&session, "handoff", "words");
    session.routes.received(&input).unwrap();
    let client = input.origin_id.clone();
    let (thread_id, turn, origin) = queue_request(input);
    let receipt = match queue.enqueue_voice(thread_id, &payload(&turn), &origin).unwrap() {
        VoiceEnqueueOutcome::Inserted(receipt) => receipt,
        VoiceEnqueueOutcome::Existing(_) => panic!("nothing was queued before"),
    };
    let item = receipt.queued_item_id.clone();
    assert_eq!(admission_answer(Ok(receipt)).unwrap().queued_item_id, item);
    queue.claim_voice(thread_id, &item, "attempt").unwrap().unwrap();
    let started = VoiceClaimOutcome::Started { turn_id: "turn".to_string() };
    queue.finish_voice_claim(thread_id, &item, "attempt", started).unwrap();
    session.routes.started("turn", Some(&client)).unwrap();
    assert_eq!(session.routes.binding("turn").unwrap().origin_id, client);
    assert!(queue.items().is_empty());
}

#[test]
fn a_handoff_is_queued_once_whatever_its_text() {
    let session = ready_session();
    let mut queue = SqliteQueueStore::load(8, Vec::new(), Vec::new()).unwrap();
    let (thread_id, turn, origin) = queue_request(admitted(&session, "handoff", "words"));
    queue.enqueue_voice(thread_id, &payload(&turn), &origin).unwrap();
    let (_, reworded, same_origin) = queue_request(admitted(&session, "handoff", "other words"));
    assert_eq!(origin, same_origin);
    assert_eq!(
        queue.enqueue_voice(thread_id, &payload(&reworded), &same_origin),
        Err(VoiceQueueError::Refused(Refusal::OriginConflict))
    );
    assert!(matches!(
        queue.enqueue_voice(thread_id, &payload(&turn), &origin),
        Ok(VoiceEnqueueOutcome::Existing(_))
    ));
    assert_eq!(queue.items().len(), 1);
    let (_, turn, origin) = queue_request(admitted(&session, "next handoff", "words"));
    queue.enqueue_voice(thread_id, &payload(&turn), &origin).unwrap();
    assert_eq!(queue.items().len(), 2);
}
