//! Text, identities, messages and what a host hands on.

use voice_admission::host::{admission_answer, queue_request, TurnInput, UserInput};
use voice_admission::ids::{InvalidThreadId, ThreadId};
use voice_admission::origin::{VoiceAdmissionAck, VoiceAdmissionInput, VoiceAdmissionScope};
use voice_admission::queue_failure::{
    enqueue_failure, reorder_failure, storage_failure, voice_unavailable, ThreadStoreError,
};
use voice_admission::receipt::{VoiceAdmissionReceipt, VoiceAdmissionResult, VoiceQueueOrigin};
use voice_admission::text::{byte_len, is_blank, same_opt_text, same_text};

#[test]
fn white_space_is_what_the_standard_library_trims() {
    for c in '\0'..=char::MAX {
        let text = c.to_string();
        assert_eq!(is_blank(&text), text.trim().is_empty(), "{c:?}");
    }
    assert!(is_blank(""));
    assert!(!is_blank(" a "));
}

#[test]
fn text_is_compared_and_measured() {
    assert!(same_text("é", "é"));
    assert!(!same_text("e", "é"));
    assert!(!same_text("a", "ab"));
    assert!(same_opt_text(&None, &None));
    assert!(!same_opt_text(&None, &Some(String::new())));
    assert!(same_opt_text(&Some("a".to_string()), &Some("a".to_string())));
    assert_eq!(byte_len("aé\u{1F600}"), 7);
}

#[test]
fn a_thread_identity_is_written_and_read_back() {
    let id = ThreadId { uuid: 0x0123_4567_89ab_cdef_0123_4567_89ab_cdef };
    assert_eq!(id.to_string(), "01234567-89ab-cdef-0123-456789abcdef");
    assert_eq!(ThreadId::from_string(&id.to_string()), Ok(id));
    assert_eq!(
        ThreadId::from_string("0123456789ABCDEF0123456789ABCDEF"),
        Ok(id)
    );
    assert_eq!(ThreadId::from_string("thread"), Err(InvalidThreadId));
    let fresh = ThreadId::new();
    assert_eq!(ThreadId::from_string(&fresh.to_string()), Ok(fresh));
    assert_ne!(fresh, ThreadId::new());
    assert_eq!((fresh.uuid >> 76) & 0xf, 7);
    assert_eq!((fresh.uuid >> 62) & 0x3, 2);
}

#[test]
fn storage_failures_are_told_apart() {
    assert_eq!(
        voice_unavailable(),
        ThreadStoreError::InvalidRequest {
            message: "durable voice admission is unavailable".to_string()
        }
    );
    assert_eq!(
        storage_failure("disk full"),
        ThreadStoreError::Internal { message: "queue storage failed: disk full".to_string() }
    );
    assert_eq!(
        enqueue_failure(true, "ignored", 1024),
        ThreadStoreError::InvalidRequest {
            message: "queue cannot contain more than 1024 submissions".to_string()
        }
    );
    assert_eq!(
        enqueue_failure(true, "ignored", 0),
        ThreadStoreError::InvalidRequest {
            message: "queue cannot contain more than 0 submissions".to_string()
        }
    );
    assert_eq!(
        enqueue_failure(true, "ignored", 9_876_543_210),
        ThreadStoreError::InvalidRequest {
            message: "queue cannot contain more than 9876543210 submissions".to_string()
        }
    );
    assert_eq!(enqueue_failure(false, "why", 1024), storage_failure("why"));
    assert_eq!(
        reorder_failure(Some("not a permutation".to_string()), "why"),
        ThreadStoreError::InvalidRequest { message: "not a permutation".to_string() }
    );
    assert_eq!(reorder_failure(None, "why"), storage_failure("why"));
}

#[test]
fn an_admission_becomes_a_request_to_the_queue() {
    let thread_id = ThreadId::new();
    let input = VoiceAdmissionInput {
        thread_id,
        scope: VoiceAdmissionScope {
            voice_session_generation: 4,
            native_session_id: "session".to_string(),
        },
        origin_id: "origin".to_string(),
        handoff_id: Some("handoff".to_string()),
        item_id: None,
        text: "words".to_string(),
    };
    assert_eq!(
        queue_request(input),
        (
            thread_id,
            TurnInput::UserInput {
                content: vec![UserInput::Text { text: "words".to_string() }],
                client_id: Some("origin".to_string()),
            },
            VoiceQueueOrigin {
                native_session_id: "session".to_string(),
                voice_session_generation: 4,
                origin_id: "origin".to_string(),
                handoff_id: Some("handoff".to_string()),
                item_id: None,
            },
        )
    );
}

#[test]
fn the_answer_of_the_queue_becomes_an_acknowledgement() {
    let receipt = VoiceAdmissionReceipt {
        schema: "fdv.voice.admission.v1".to_string(),
        thread_id: ThreadId { uuid: 1 },
        native_session_id: "session".to_string(),
        voice_session_generation: 1,
        origin_id: "origin".to_string(),
        handoff_id: None,
        item_id: None,
        queued_item_id: "item".to_string(),
        receipt_id: "item".to_string(),
        client_id: "origin".to_string(),
        input_digest: None,
        admission_result: VoiceAdmissionResult::Queued,
        attempt_id: None,
        turn_id: None,
        reason: None,
    };
    assert_eq!(
        admission_answer(Ok(receipt)),
        Ok(VoiceAdmissionAck { queued_item_id: "item".to_string() })
    );
    assert_eq!(admission_answer(Err("full".to_string())), Err("full".to_string()));
}
