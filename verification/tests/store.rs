//! The durable queue: once per origin, one claim at a time, nothing lost.

use voice_admission::ids::ThreadId;
use voice_admission::receipt::{
    QueuedItemRow, RowError, VoiceAdmissionReceipt, VoiceAdmissionResult, VoiceClaimOutcome,
    VoiceEnqueueOutcome, VoiceQueueOrigin, VoiceReceiptRow,
};
use voice_admission::store::SqliteQueueStore;
use voice_admission::store_model::{Refusal, TableWrite, VoiceQueueError};

const LIMIT: usize = 20;

fn store() -> SqliteQueueStore {
    SqliteQueueStore::load(LIMIT, Vec::new(), Vec::new()).unwrap()
}

fn voice_origin(id: &str) -> VoiceQueueOrigin {
    VoiceQueueOrigin {
        native_session_id: "native-session-A".to_string(),
        voice_session_generation: 1,
        origin_id: id.to_string(),
        handoff_id: Some("handoff".to_string()),
        item_id: Some("item".to_string()),
    }
}

fn voice_payload(origin: &VoiceQueueOrigin, text: &str) -> String {
    format!(
        "{{\"UserInput\":{{\"content\":[{{\"type\":\"text\",\"text\":\"{text}\",\
         \"text_elements\":[]}}],\"client_id\":\"{}\"}}}}",
        origin.origin_id
    )
}

fn insert(
    queue: &mut SqliteQueueStore,
    thread_id: ThreadId,
    payload: &str,
    origin: &VoiceQueueOrigin,
) -> VoiceAdmissionReceipt {
    match queue.enqueue_voice(thread_id, payload, origin).unwrap() {
        VoiceEnqueueOutcome::Inserted(receipt) => receipt,
        VoiceEnqueueOutcome::Existing(_) => panic!("first origin must insert"),
    }
}

fn refused<T>(refusal: Refusal) -> Result<T, VoiceQueueError> {
    Err(VoiceQueueError::Refused(refusal))
}

/// The store as it is after its rows were written out and read again.
fn reopened(queue: &SqliteQueueStore) -> SqliteQueueStore {
    SqliteQueueStore::load(LIMIT, queue.receipts().clone(), queue.items().clone()).unwrap()
}

#[test]
fn voice_origin_replay_cannot_replace_input_or_recreate_a_started_item() {
    let thread_id = ThreadId::new();
    let mut queue = store();
    let origin = voice_origin("generation-1/utterance-1");
    let payload = voice_payload(&origin, "first");
    let receipt = insert(&mut queue, thread_id, &payload, &origin);
    assert_eq!(
        VoiceEnqueueOutcome::Existing(receipt.clone()),
        queue.enqueue_voice(thread_id, &payload, &origin).unwrap(),
    );
    assert!(
        queue
            .enqueue_voice(thread_id, &voice_payload(&origin, "changed"), &origin)
            .is_err()
    );
    assert_eq!(origin.native_session_id, receipt.native_session_id);
    let mut wrong_session = origin.clone();
    wrong_session.native_session_id = "native-session-B".to_string();
    assert!(queue.enqueue_voice(thread_id, &payload, &wrong_session).is_err());
    let mut blank_session = origin.clone();
    blank_session.native_session_id = " ".to_string();
    assert!(queue.enqueue_voice(thread_id, &payload, &blank_session).is_err());
    assert_eq!(
        Some(receipt.clone()),
        queue.get_voice_receipt(thread_id, &origin.origin_id).unwrap()
    );
    queue
        .claim_voice(thread_id, &receipt.queued_item_id, "attempt-1")
        .unwrap()
        .unwrap();
    let started = queue
        .finish_voice_claim(
            thread_id,
            &receipt.queued_item_id,
            "attempt-1",
            VoiceClaimOutcome::Started { turn_id: "core-turn-1".to_string() },
        )
        .unwrap();
    let mut expected = receipt;
    expected.admission_result = VoiceAdmissionResult::Started;
    expected.attempt_id = Some("attempt-1".to_string());
    expected.turn_id = Some("core-turn-1".to_string());
    assert_eq!(expected, started);
    assert!(queue.items().is_empty());
    assert_eq!(
        VoiceEnqueueOutcome::Existing(started),
        queue.enqueue_voice(thread_id, &payload, &origin).unwrap()
    );
    assert!(queue.items().is_empty());
}

#[test]
fn an_ambiguous_claim_survives_reopening_and_is_settled_by_reconciliation_alone() {
    let thread_id = ThreadId::new();
    let mut queue = store();
    let origin = voice_origin("generation-1/utterance-2");
    let payload = voice_payload(&origin, "once");
    let receipt = insert(&mut queue, thread_id, &payload, &origin);
    let item = receipt.queued_item_id.clone();
    let claimed = queue.claim_voice(thread_id, &item, "attempt-a").unwrap().unwrap();
    assert_eq!(None, queue.claim_voice(thread_id, &item, "attempt-b").unwrap());

    let mut queue = reopened(&queue);
    assert_eq!(
        Some(claimed.clone()),
        queue.get_voice_receipt(thread_id, &origin.origin_id).unwrap()
    );
    assert_eq!(
        Some(claimed.clone()),
        queue.voice_receipt_for_item(thread_id, &item).unwrap()
    );
    assert_eq!(None, queue.claim_voice(thread_id, &item, "retry").unwrap());
    let attempt = claimed.attempt_id.clone().unwrap();
    let ambiguous = queue
        .finish_voice_claim(
            thread_id,
            &item,
            &attempt,
            VoiceClaimOutcome::Ambiguous { reason: "lost receipt".to_string() },
        )
        .unwrap();
    let mut expected = claimed;
    expected.admission_result = VoiceAdmissionResult::Ambiguous;
    expected.reason = Some("lost receipt".to_string());
    assert_eq!(expected, ambiguous);
    assert_eq!(1, queue.items().len());
    assert_eq!(None, queue.claim_voice(thread_id, &item, "retry").unwrap());
    let reconcile = |queue: &mut SqliteQueueStore, session: &str, client: &str, turn: &str| {
        queue.reconcile_voice_started(thread_id, session, &origin.origin_id, client, turn)
    };
    assert_eq!(
        reconcile(&mut queue, "native-session-A", "wrong-client", "turn"),
        refused(Refusal::ReconciliationClientMismatch)
    );
    assert_eq!(
        reconcile(&mut queue, "native-session-B", &origin.origin_id, "turn"),
        refused(Refusal::NotReconcilable)
    );
    let started =
        reconcile(&mut queue, "native-session-A", &origin.origin_id, "turn").unwrap();
    expected.admission_result = VoiceAdmissionResult::Started;
    expected.reason = None;
    expected.turn_id = Some("turn".to_string());
    assert_eq!(expected, started);
    assert_eq!(
        started,
        reconcile(&mut queue, "native-session-A", &origin.origin_id, "turn").unwrap()
    );
    assert_eq!(
        reconcile(&mut queue, "native-session-A", &origin.origin_id, "different-turn"),
        refused(Refusal::NotReconcilable)
    );
    assert!(queue.items().is_empty());
}

#[test]
fn a_busy_release_is_scoped_to_its_attempt() {
    let thread_id = ThreadId::new();
    let mut queue = store();
    let origin = voice_origin("generation-1/utterance-3");
    let payload = voice_payload(&origin, "later");
    let receipt = insert(&mut queue, thread_id, &payload, &origin);
    let item = receipt.queued_item_id.clone();
    queue.claim_voice(thread_id, &item, "busy-attempt").unwrap().unwrap();
    let released = queue
        .finish_voice_claim(
            thread_id,
            &item,
            "busy-attempt",
            VoiceClaimOutcome::RetryableRejection { reason: "NotIdle".to_string() },
        )
        .unwrap();
    let mut expected = receipt.clone();
    expected.reason = Some("NotIdle".to_string());
    assert_eq!(expected, released);
    queue.claim_voice(thread_id, &item, "new-attempt").unwrap().unwrap();
    assert_eq!(
        queue.finish_voice_claim(
            thread_id,
            &item,
            "busy-attempt",
            VoiceClaimOutcome::Started { turn_id: "wrong".to_string() },
        ),
        refused(Refusal::ClaimMismatch)
    );
    let released = queue
        .finish_voice_claim(
            thread_id,
            &item,
            "new-attempt",
            VoiceClaimOutcome::RetryableRejection { reason: "ServerDraining".to_string() },
        )
        .unwrap();
    expected.reason = Some("ServerDraining".to_string());
    assert_eq!(expected, released);
    assert_eq!(1, queue.items().len());
}

fn old_rows(thread: &str, result: &str, session: Option<&str>) -> (VoiceReceiptRow, QueuedItemRow) {
    (
        VoiceReceiptRow {
            thread_id: thread.to_string(),
            origin_id: "old-origin".to_string(),
            native_session_id: session.map(str::to_string),
            voice_session_generation: 1,
            handoff_id: None,
            item_id: None,
            queued_item_id: "old-queue".to_string(),
            client_id: "old-origin".to_string(),
            payload_json: "{}".to_string(),
            input_digest: None,
            admission_result: result.to_string(),
            attempt_id: None,
            turn_id: None,
            reason: None,
        },
        QueuedItemRow {
            id: "old-queue".to_string(),
            thread_id: thread.to_string(),
            payload_json: "{}".to_string(),
            queue_order: 0,
            created_at_ms: 0,
            updated_at_ms: 0,
        },
    )
}

#[test]
fn no_session_is_invented_for_an_old_receipt() {
    let thread_id = ThreadId::new();
    let (receipt, item) = old_rows(&thread_id.to_string(), "Queued", None);
    let mut queue = SqliteQueueStore::load(LIMIT, vec![receipt.clone()], vec![item]).unwrap();
    assert_eq!(
        queue.get_voice_receipt(thread_id, "old-origin"),
        Err(VoiceQueueError::Row(RowError::NoNativeSession))
    );
    assert_eq!(None, queue.claim_voice(thread_id, "old-queue", "attempt").unwrap());
    assert!(
        queue
            .reconcile_voice_started(thread_id, "invented", "old-origin", "old-origin", "turn")
            .is_err()
    );
    assert_eq!(queue.receipts(), &vec![receipt]);
    assert_eq!(1, queue.items().len());
}

#[test]
fn a_request_is_checked_in_order_before_the_store_is_looked_at() {
    let thread_id = ThreadId::new();
    let mut queue = store();
    let good = voice_origin("origin");
    let payload = voice_payload(&good, "words");
    let attempt = |queue: &mut SqliteQueueStore, origin: &VoiceQueueOrigin, payload: &str| {
        queue.enqueue_voice(thread_id, payload, origin)
    };
    let mut origin = good.clone();
    origin.voice_session_generation = i64::MAX as u64 + 1;
    assert_eq!(attempt(&mut queue, &origin, &payload), refused(Refusal::IntegerOutOfRange));
    assert_eq!(attempt(&mut queue, &origin, "{}"), refused(Refusal::ClientMismatch));
    assert_eq!(
        attempt(&mut queue, &origin, "{\"UserInput\":{\"client_id\":7}}"),
        refused(Refusal::ClientMismatch)
    );
    let error = attempt(&mut queue, &origin, "not json").unwrap_err();
    assert_eq!(error.message(), "expected ident at line 1 column 2");
    assert!(matches!(error, VoiceQueueError::InvalidPayload { .. }));
    origin.voice_session_generation = 0;
    assert_eq!(attempt(&mut queue, &origin, "not json"), refused(Refusal::InvalidGeneration));
    origin.native_session_id = "\u{a0}".to_string();
    assert_eq!(attempt(&mut queue, &origin, "not json"), refused(Refusal::EmptyNativeSession));
    origin.origin_id = String::new();
    assert_eq!(attempt(&mut queue, &origin, "not json"), refused(Refusal::EmptyOrigin));
    assert!(queue.receipts().is_empty() && queue.items().is_empty());
    let mut largest = good.clone();
    largest.voice_session_generation = i64::MAX as u64;
    assert!(attempt(&mut queue, &largest, &payload).is_ok());
    assert_eq!(attempt(&mut queue, &good, &payload), refused(Refusal::OriginConflict));
}

#[test]
fn a_new_origin_gets_a_receipt_and_the_last_place() {
    let thread_id = ThreadId::from_string("0123abcd-0000-7000-8000-0000000000ff").unwrap();
    let mut queue = store();
    let first = voice_origin("first");
    let second = voice_origin("second");
    let enqueue = |queue: &mut SqliteQueueStore, origin: &VoiceQueueOrigin, id: &str, now: i64| {
        queue
            .enqueue_voice_as(
                thread_id,
                "payload",
                origin,
                Ok(Some(origin.origin_id.clone())),
                id.to_string(),
                now,
            )
            .unwrap()
    };
    assert_eq!(
        enqueue(&mut queue, &first, "item-1", 17),
        VoiceEnqueueOutcome::Inserted(VoiceAdmissionReceipt {
            schema: "fdv.voice.admission.v1".to_string(),
            thread_id,
            native_session_id: "native-session-A".to_string(),
            voice_session_generation: 1,
            origin_id: "first".to_string(),
            handoff_id: Some("handoff".to_string()),
            item_id: Some("item".to_string()),
            queued_item_id: "item-1".to_string(),
            receipt_id: "item-1".to_string(),
            client_id: "first".to_string(),
            input_digest: None,
            admission_result: VoiceAdmissionResult::Queued,
            attempt_id: None,
            turn_id: None,
            reason: None,
        })
    );
    enqueue(&mut queue, &second, "item-2", 18);
    assert_eq!(
        queue.items(),
        &vec![
            QueuedItemRow {
                id: "item-1".to_string(),
                thread_id: "0123abcd-0000-7000-8000-0000000000ff".to_string(),
                payload_json: "payload".to_string(),
                queue_order: 0,
                created_at_ms: 17,
                updated_at_ms: 17,
            },
            QueuedItemRow {
                id: "item-2".to_string(),
                thread_id: "0123abcd-0000-7000-8000-0000000000ff".to_string(),
                payload_json: "payload".to_string(),
                queue_order: 1,
                created_at_ms: 18,
                updated_at_ms: 18,
            },
        ]
    );
}

#[test]
fn a_fresh_item_has_a_time_ordered_identity_and_the_present_time() {
    let thread_id = ThreadId::new();
    let mut queue = store();
    let origin = voice_origin("origin");
    let receipt = insert(&mut queue, thread_id, &voice_payload(&origin, "words"), &origin);
    let id = receipt.queued_item_id.as_bytes();
    assert_eq!(id.len(), 36);
    assert_eq!(id[14], b'7');
    assert!(ThreadId::from_string(&receipt.queued_item_id).is_ok());
    assert_eq!(receipt.thread_id, thread_id);
    // Later than the turn of the year 2024.
    assert!(queue.items()[0].created_at_ms > 1_704_067_200_000);
    let other = voice_origin("other");
    let second = insert(&mut queue, thread_id, &voice_payload(&other, "words"), &other);
    assert_ne!(receipt.queued_item_id, second.queued_item_id);
}

#[test]
fn the_queue_of_a_thread_is_limited() {
    let thread_id = ThreadId::new();
    let other_thread = ThreadId::new();
    let mut queue = SqliteQueueStore::load(1, Vec::new(), Vec::new()).unwrap();
    let first = voice_origin("first");
    let second = voice_origin("second");
    insert(&mut queue, thread_id, &voice_payload(&first, "words"), &first);
    assert_eq!(
        queue.enqueue_voice(thread_id, &voice_payload(&second, "words"), &second),
        refused(Refusal::QueueFull)
    );
    assert_eq!(queue.receipts().len(), 1);
    assert!(matches!(
        queue.enqueue_voice(thread_id, &voice_payload(&first, "words"), &first),
        Ok(VoiceEnqueueOutcome::Existing(_))
    ));
    insert(&mut queue, other_thread, &voice_payload(&first, "words"), &first);
}

#[test]
fn an_item_needs_an_unused_identity_and_a_place() {
    let thread_id = ThreadId::new();
    let (receipt, mut item) = old_rows(&thread_id.to_string(), "Started", Some("session"));
    item.id = "another".to_string();
    item.queue_order = i64::MAX;
    let enqueue = |queue: &mut SqliteQueueStore, id: &str| {
        queue.enqueue_voice_as(
            thread_id,
            "{}",
            &voice_origin("origin"),
            Ok(Some("origin".to_string())),
            id.to_string(),
            0,
        )
    };
    let mut queue = SqliteQueueStore::load(LIMIT, vec![receipt.clone()], Vec::new()).unwrap();
    assert_eq!(enqueue(&mut queue, "old-queue"), refused(Refusal::ItemIdInUse));
    assert!(enqueue(&mut queue, "new-queue").is_ok());
    let mut queue = SqliteQueueStore::load(LIMIT, vec![receipt.clone()], vec![item]).unwrap();
    assert_eq!(enqueue(&mut queue, "new-queue"), refused(Refusal::OrderExhausted));
    let mut unlimited = SqliteQueueStore::load(usize::MAX, vec![receipt], Vec::new()).unwrap();
    assert_eq!(enqueue(&mut unlimited, "new-queue"), refused(Refusal::IntegerOutOfRange));
}

#[test]
fn a_claim_needs_a_queued_receipt_with_its_item_unchanged() {
    let thread_id = ThreadId::new();
    let thread = thread_id.to_string();
    let claim = |receipt: VoiceReceiptRow, items: Vec<QueuedItemRow>| {
        SqliteQueueStore::load(LIMIT, vec![receipt], items)
            .unwrap()
            .claim_voice(thread_id, "old-queue", "attempt")
            .unwrap()
            .is_some()
    };
    let (receipt, item) = old_rows(&thread, "Queued", Some("session"));
    assert!(claim(receipt, vec![item]));
    for result in ["Claimed", "Started", "Ambiguous", "Rejected", "Cancelled", "Other"] {
        let (receipt, item) = old_rows(&thread, result, Some("session"));
        assert!(!claim(receipt, vec![item]));
    }
    for session in ["", "  ", "\0", " \0session"] {
        let (receipt, item) = old_rows(&thread, "Queued", Some(session));
        assert!(!claim(receipt, vec![item]));
    }
    let (receipt, _) = old_rows(&thread, "Queued", Some("session"));
    assert!(!claim(receipt, Vec::new()));
    let (receipt, mut item) = old_rows(&thread, "Queued", Some("session"));
    item.payload_json = "[]".to_string();
    assert!(!claim(receipt, vec![item]));
}

#[test]
fn a_claim_stands_though_its_receipt_cannot_be_read() {
    let thread_id = ThreadId::new();
    let (receipt, item) = old_rows(&thread_id.to_string(), "Queued", Some("\u{3000}"));
    let mut queue = SqliteQueueStore::load(LIMIT, vec![receipt], vec![item]).unwrap();
    assert_eq!(
        queue.claim_voice(thread_id, "old-queue", "attempt"),
        Err(VoiceQueueError::Row(RowError::NoNativeSession))
    );
    assert_eq!(queue.receipts()[0].admission_result, "Claimed");
    assert_eq!(
        queue.finish_voice_claim(
            thread_id,
            "old-queue",
            "attempt",
            VoiceClaimOutcome::Rejected { reason: "reason".to_string() },
        ),
        Err(VoiceQueueError::Row(RowError::NoNativeSession))
    );
    assert_eq!(queue.receipts()[0].admission_result, "Claimed");
    assert_eq!(queue.items().len(), 1);
}

#[test]
fn empty_identities_are_refused() {
    let thread_id = ThreadId::new();
    let mut queue = store();
    assert_eq!(queue.claim_voice(thread_id, "item", ""), refused(Refusal::EmptyAttempt));
    assert_eq!(queue.claim_voice(thread_id, "item", "attempt"), Ok(None));
    assert_eq!(
        queue.finish_voice_claim(
            thread_id,
            "item",
            "attempt",
            VoiceClaimOutcome::Started { turn_id: String::new() },
        ),
        refused(Refusal::EmptyTurn)
    );
    assert_eq!(
        queue.reconcile_voice_started(thread_id, "session", "origin", "origin", ""),
        refused(Refusal::EmptyTurn)
    );
    assert_eq!(
        queue.reconcile_voice_started(thread_id, " ", "origin", "origin", "turn"),
        refused(Refusal::EmptyNativeSession)
    );
    assert_eq!(queue.get_voice_receipt(thread_id, "origin"), Ok(None));
    assert_eq!(queue.voice_receipt_for_item(thread_id, "item"), Ok(None));
}

#[test]
fn a_rejected_item_leaves_the_queue_and_its_receipt_stays() {
    let thread_id = ThreadId::new();
    let mut queue = store();
    let origin = voice_origin("origin");
    let kept = voice_origin("kept");
    let payload = voice_payload(&origin, "words");
    let receipt = insert(&mut queue, thread_id, &payload, &origin);
    let other = insert(&mut queue, thread_id, &voice_payload(&kept, "words"), &kept);
    queue.claim_voice(thread_id, &receipt.queued_item_id, "attempt").unwrap().unwrap();
    // One claim of a thread is open at a time.
    assert_eq!(Ok(None), queue.claim_voice(thread_id, &other.queued_item_id, "attempt"));
    let rejected = queue
        .finish_voice_claim(
            thread_id,
            &receipt.queued_item_id,
            "attempt",
            VoiceClaimOutcome::Rejected { reason: "policy".to_string() },
        )
        .unwrap();
    assert_eq!(rejected.admission_result, VoiceAdmissionResult::Rejected);
    assert_eq!(rejected.reason, Some("policy".to_string()));
    assert_eq!(rejected.attempt_id, Some("attempt".to_string()));
    assert_eq!(queue.items().len(), 1);
    assert_eq!(queue.items()[0].id, other.queued_item_id);
    assert_eq!(
        queue.enqueue_voice(thread_id, &payload, &origin),
        Ok(VoiceEnqueueOutcome::Existing(rejected))
    );
    assert!(queue.claim_voice(thread_id, &other.queued_item_id, "attempt").unwrap().is_some());
}

#[test]
fn other_threads_are_left_alone() {
    let thread_id = ThreadId::new();
    let other_thread = ThreadId::new();
    let mut queue = store();
    let origin = voice_origin("origin");
    let payload = voice_payload(&origin, "words");
    let here = insert(&mut queue, thread_id, &payload, &origin);
    let there = insert(&mut queue, other_thread, &payload, &origin);
    assert_eq!(Ok(None), queue.claim_voice(thread_id, &there.queued_item_id, "attempt"));
    queue.claim_voice(thread_id, &here.queued_item_id, "attempt").unwrap().unwrap();
    queue.claim_voice(other_thread, &there.queued_item_id, "attempt").unwrap().unwrap();
    queue
        .reconcile_voice_started(thread_id, "native-session-A", "origin", "origin", "turn")
        .unwrap();
    assert_eq!(
        queue.get_voice_receipt(other_thread, "origin").unwrap().unwrap().admission_result,
        VoiceAdmissionResult::Claimed
    );
    assert_eq!(queue.items().len(), 1);
    assert_eq!(queue.items()[0].id, there.queued_item_id);
}

#[test]
fn rows_that_share_a_key_are_not_loaded() {
    let (receipt, item) = old_rows("thread", "Queued", Some("session"));
    let mut same_origin = receipt.clone();
    same_origin.queued_item_id = "another".to_string();
    let mut same_item = receipt.clone();
    same_item.origin_id = "another".to_string();
    let mut other_thread = receipt.clone();
    other_thread.thread_id = "other".to_string();
    let load = |receipts: Vec<VoiceReceiptRow>, items: Vec<QueuedItemRow>| {
        SqliteQueueStore::load(LIMIT, receipts, items).is_some()
    };
    assert!(load(vec![receipt.clone(), other_thread], vec![item]));
    assert!(!load(vec![receipt.clone(), same_origin], Vec::new()));
    assert!(!load(vec![receipt, same_item], Vec::new()));
    let (_, one) = old_rows("thread", "Queued", None);
    let (_, two) = old_rows("other", "Queued", None);
    assert!(!load(Vec::new(), vec![one, two]));
    assert_eq!(store().max_queue_items(), LIMIT);
}

#[test]
fn the_pending_writes_lead_to_the_tables() {
    let thread_id = ThreadId::new();
    let thread = thread_id.to_string();
    let mut queue = store();
    let origin = voice_origin("origin");
    let receipt = insert(&mut queue, thread_id, &voice_payload(&origin, "words"), &origin);
    let item = receipt.queued_item_id.clone();
    assert_eq!(
        queue.take_writes(),
        vec![
            TableWrite::InsertReceipt(queue.receipts()[0].clone()),
            TableWrite::InsertItem(queue.items()[0].clone()),
        ]
    );
    assert!(queue.take_writes().is_empty());
    queue.claim_voice(thread_id, &item, "").unwrap_err();
    assert!(queue.take_writes().is_empty());
    queue.claim_voice(thread_id, &item, "attempt").unwrap().unwrap();
    let claimed = queue.receipts()[0].clone();
    queue
        .finish_voice_claim(
            thread_id,
            &item,
            "attempt",
            VoiceClaimOutcome::Started { turn_id: "turn".to_string() },
        )
        .unwrap();
    assert_eq!(
        queue.take_writes(),
        vec![
            TableWrite::UpdateReceipt(claimed),
            TableWrite::UpdateReceipt(queue.receipts()[0].clone()),
            TableWrite::DeleteItem { thread_id: thread, id: item },
        ]
    );
}
