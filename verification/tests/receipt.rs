//! Receipts and records as they are read from rows.

use voice_admission::ids::ThreadId;
use voice_admission::receipt::{
    QueuedItemRow, QueuedUserSubmissionRecord, RowError, VoiceAdmissionReceipt,
    VoiceAdmissionResult, VoiceReceiptRow,
};
use voice_admission::store_model::{Refusal, VoiceQueueError};

const THREAD: &str = "00000000-0000-0000-0000-000000000001";

fn row() -> VoiceReceiptRow {
    VoiceReceiptRow {
        thread_id: THREAD.to_string(),
        origin_id: "origin".to_string(),
        native_session_id: Some("session".to_string()),
        voice_session_generation: 3,
        handoff_id: Some("handoff".to_string()),
        item_id: None,
        queued_item_id: "item".to_string(),
        client_id: "client".to_string(),
        payload_json: "{}".to_string(),
        input_digest: Some("digest".to_string()),
        admission_result: "Ambiguous".to_string(),
        attempt_id: Some("attempt".to_string()),
        turn_id: Some("turn".to_string()),
        reason: Some("reason".to_string()),
    }
}

#[test]
fn a_receipt_is_read_column_by_column() {
    assert_eq!(
        VoiceAdmissionReceipt::try_from_row(&row()),
        Ok(VoiceAdmissionReceipt {
            schema: "fdv.voice.admission.v1".to_string(),
            thread_id: ThreadId { uuid: 1 },
            native_session_id: "session".to_string(),
            voice_session_generation: 3,
            origin_id: "origin".to_string(),
            handoff_id: Some("handoff".to_string()),
            item_id: None,
            queued_item_id: "item".to_string(),
            receipt_id: "item".to_string(),
            client_id: "client".to_string(),
            input_digest: Some("digest".to_string()),
            admission_result: VoiceAdmissionResult::Ambiguous,
            attempt_id: Some("attempt".to_string()),
            turn_id: Some("turn".to_string()),
            reason: Some("reason".to_string()),
        })
    );
}

#[test]
fn a_row_is_refused_for_the_first_thing_that_is_wrong() {
    let mut row = row();
    row.voice_session_generation = -1;
    assert_eq!(
        VoiceAdmissionReceipt::try_from_row(&row),
        Err(RowError::GenerationOutOfRange)
    );
    row.thread_id = "no thread".to_string();
    assert_eq!(VoiceAdmissionReceipt::try_from_row(&row), Err(RowError::InvalidThreadId));
    row.native_session_id = Some("\t ".to_string());
    assert_eq!(VoiceAdmissionReceipt::try_from_row(&row), Err(RowError::NoNativeSession));
    row.native_session_id = None;
    assert_eq!(VoiceAdmissionReceipt::try_from_row(&row), Err(RowError::NoNativeSession));
    row.admission_result = "queued".to_string();
    assert_eq!(VoiceAdmissionReceipt::try_from_row(&row), Err(RowError::InvalidState));
}

#[test]
fn a_result_is_stored_under_its_name() {
    for (result, text) in [
        (VoiceAdmissionResult::Queued, "Queued"),
        (VoiceAdmissionResult::Claimed, "Claimed"),
        (VoiceAdmissionResult::Started, "Started"),
        (VoiceAdmissionResult::Ambiguous, "Ambiguous"),
        (VoiceAdmissionResult::Rejected, "Rejected"),
        (VoiceAdmissionResult::Cancelled, "Cancelled"),
    ] {
        assert_eq!(result.text(), text);
        assert_eq!(VoiceAdmissionResult::from_text(text), Some(result));
    }
    assert_eq!(VoiceAdmissionResult::from_text("Steered"), None);
}

#[test]
fn a_record_is_read_from_its_item() {
    let mut item = QueuedItemRow {
        id: "item".to_string(),
        thread_id: THREAD.to_string(),
        payload_json: "{\"n\":1}".to_string(),
        queue_order: 0,
        created_at_ms: 1,
        updated_at_ms: 2,
    };
    assert_eq!(
        QueuedUserSubmissionRecord::try_from_row(&item),
        Ok(QueuedUserSubmissionRecord {
            id: "item".to_string(),
            thread_id: ThreadId { uuid: 1 },
            payload: "{\"n\":1}".to_string(),
        })
    );
    item.thread_id = "1".to_string();
    assert_eq!(
        QueuedUserSubmissionRecord::try_from_row(&item),
        Err(RowError::InvalidThreadId)
    );
}

#[test]
fn failures_have_messages() {
    let refused = |refusal: Refusal| VoiceQueueError::Refused(refusal).message();
    assert_eq!(refused(Refusal::EmptyOrigin), "voice origin id is empty");
    assert_eq!(refused(Refusal::EmptyNativeSession), "native session id is empty");
    assert_eq!(refused(Refusal::InvalidGeneration), "invalid voice generation");
    assert_eq!(
        refused(Refusal::ClientMismatch),
        "voice input client id does not match origin"
    );
    assert_eq!(
        refused(Refusal::IntegerOutOfRange),
        u64::try_from(-1i64).unwrap_err().to_string()
    );
    assert_eq!(refused(Refusal::OriginConflict), "voice origin conflict");
    assert_eq!(refused(Refusal::QueueFull), "voice queue is full");
    assert_eq!(refused(Refusal::OrderExhausted), "voice queue order is exhausted");
    assert_eq!(refused(Refusal::ItemIdInUse), "queued item id is in use");
    assert_eq!(refused(Refusal::EmptyAttempt), "voice attempt id is empty");
    assert_eq!(refused(Refusal::EmptyTurn), "voice turn id is empty");
    assert_eq!(refused(Refusal::ClaimMismatch), "voice claim no longer matches");
    assert_eq!(
        refused(Refusal::ReconciliationClientMismatch),
        "voice reconciliation client id mismatch"
    );
    assert_eq!(refused(Refusal::NotReconcilable), "voice receipt cannot be reconciled");
    let row = |error: RowError| VoiceQueueError::Row(error).message();
    assert_eq!(row(RowError::InvalidState), "invalid voice admission state");
    assert_eq!(
        row(RowError::NoNativeSession),
        "voice receipt has no native session binding"
    );
    assert_eq!(row(RowError::InvalidThreadId), "invalid thread id");
    assert_eq!(
        row(RowError::GenerationOutOfRange),
        i64::try_from(u64::MAX).unwrap_err().to_string()
    );
    let payload = VoiceQueueError::InvalidPayload { message: "why".to_string() };
    assert_eq!(payload.message(), "why");
}
