//! The origin that a handoff is given.

use voice_admission::ids::ThreadId;
use voice_admission::origin::{
    voice_admission_input, RealtimeHandoffRequested, VoiceAdmissionScope,
};

const INVALID: &str = "Voice origin identity is missing or invalid";

fn scope(native_session_id: &str, voice_session_generation: u64) -> VoiceAdmissionScope {
    VoiceAdmissionScope {
        voice_session_generation,
        native_session_id: native_session_id.to_string(),
    }
}

fn handoff(handoff_id: &str, item_id: &str) -> RealtimeHandoffRequested {
    RealtimeHandoffRequested {
        handoff_id: handoff_id.to_string(),
        item_id: item_id.to_string(),
        input_transcript: "same words".to_string(),
    }
}

#[test]
fn identity_depends_on_origin_and_generation_not_text() {
    let thread = ThreadId::new();
    let scope = scope("FAKE_NATIVE_SESSION", 1);
    let mut handoff = handoff("FAKE_ORIGIN_A", "FAKE_ITEM");
    let first = voice_admission_input(thread, &scope, &handoff, "same words".to_string()).unwrap();
    let duplicate =
        voice_admission_input(thread, &scope, &handoff, "same words".to_string()).unwrap();
    assert_eq!(first, duplicate);
    let changed =
        voice_admission_input(thread, &scope, &handoff, "other words".to_string()).unwrap();
    assert_eq!(first.origin_id, changed.origin_id);
    handoff.handoff_id = "FAKE_ORIGIN_B".to_string();
    let second = voice_admission_input(thread, &scope, &handoff, "same words".to_string()).unwrap();
    assert_ne!(first.origin_id, second.origin_id);
    let successor = VoiceAdmissionScope {
        voice_session_generation: 2,
        ..scope.clone()
    };
    let newer =
        voice_admission_input(thread, &successor, &handoff, "same words".to_string()).unwrap();
    assert_ne!(second.origin_id, newer.origin_id);
    handoff.handoff_id.clear();
    assert!(voice_admission_input(thread, &scope, &handoff, "same words".to_string()).is_err());
}

#[test]
fn the_origin_is_the_json_array_of_its_identities() {
    let input = voice_admission_input(
        ThreadId::new(),
        &scope("a\"b\\c\n\u{1}\u{1f}\u{8}\u{c}\r\té/\u{7f}\u{1F600}", 9_007_199_254_740_991),
        &handoff("h,1", ""),
        "words".to_string(),
    )
    .unwrap();
    assert_eq!(
        input.origin_id,
        "[\"a\\\"b\\\\c\\n\\u0001\\u001f\\b\\f\\r\\té/\u{7f}\u{1F600}\",9007199254740991,\"h,1\"]"
    );
    assert_eq!(input.handoff_id, Some("h,1".to_string()));
    assert_eq!(input.item_id, None);
    assert_eq!(input.text, "words");
}

#[test]
fn identities_that_only_look_alike_are_told_apart() {
    let origin = |session: &str, generation: u64, handoff_id: &str| {
        voice_admission_input(
            ThreadId::new(),
            &scope(session, generation),
            &handoff(handoff_id, "item"),
            "words".to_string(),
        )
        .unwrap()
        .origin_id
    };
    assert_ne!(origin("a\",1,\"b", 1, "c"), origin("a", 1, "b\",1,\"c"));
    assert_ne!(origin("a", 1, "\\"), origin("a", 1, "\\\\"));
    assert_ne!(origin("a", 1, "\n"), origin("a", 1, "\\n"));
}

#[test]
fn invalid_identities_are_refused() {
    let thread = ThreadId::new();
    let longest = "s".repeat(1024);
    let too_long = "s".repeat(1025);
    let refused = |scope: VoiceAdmissionScope, handoff: RealtimeHandoffRequested, text: &str| {
        voice_admission_input(thread, &scope, &handoff, text.to_string()).err()
    };
    assert_eq!(refused(scope(&longest, 1), handoff(&longest, &longest), "w"), None);
    assert_eq!(refused(scope("s", 0), handoff("h", "i"), "w"), Some(INVALID));
    assert_eq!(refused(scope("s", i64::MAX as u64), handoff("h", "i"), "w"), None);
    assert_eq!(refused(scope("s", i64::MAX as u64 + 1), handoff("h", "i"), "w"), Some(INVALID));
    assert_eq!(refused(scope("", 1), handoff("h", "i"), "w"), Some(INVALID));
    assert_eq!(refused(scope(&too_long, 1), handoff("h", "i"), "w"), Some(INVALID));
    assert_eq!(refused(scope("s", 1), handoff("", "i"), "w"), Some(INVALID));
    assert_eq!(refused(scope("s", 1), handoff(&too_long, "i"), "w"), Some(INVALID));
    assert_eq!(refused(scope("s", 1), handoff("h", &too_long), "w"), Some(INVALID));
    assert_eq!(refused(scope("s", 1), handoff("h", "i"), " \u{3000}\n"), Some(INVALID));
    // The limit counts bytes, not characters.
    assert_eq!(refused(scope(&"é".repeat(512), 1), handoff("h", "i"), "w"), None);
    assert_eq!(refused(scope(&"é".repeat(513), 1), handoff("h", "i"), "w"), Some(INVALID));
}
