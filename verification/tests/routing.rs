//! Which turn the output of a spoken submission belongs to.

use voice_admission::ids::ThreadId;
use voice_admission::origin::{VoiceAdmissionInput, VoiceAdmissionScope};
use voice_admission::routing::{VoiceTurnBinding, VoiceTurnRoutes, MAX_SESSION_ORIGINS};

fn origin(scope: &VoiceAdmissionScope, id: &str) -> VoiceAdmissionInput {
    VoiceAdmissionInput {
        thread_id: ThreadId::new(),
        scope: scope.clone(),
        origin_id: id.to_string(),
        handoff_id: Some(format!("handoff-{id}")),
        item_id: Some(format!("item-{id}")),
        text: "same spoken words".to_string(),
    }
}

fn native_a(generation: u64) -> VoiceAdmissionScope {
    VoiceAdmissionScope {
        native_session_id: "native-A".into(),
        voice_session_generation: generation,
    }
}

#[test]
fn received_is_not_started_and_completion_does_not_consume_pending_origin() {
    let scope = native_a(1);
    let mut routes = VoiceTurnRoutes::new(scope.clone());
    let a = origin(&scope, "origin-A");
    let b = origin(&scope, "origin-B");
    routes.received(&a).unwrap();
    routes.started("turn-A", Some("origin-A")).unwrap();
    let binding_a = routes.binding("turn-A").unwrap().clone();
    routes.received(&b).unwrap();
    routes.received(&b).unwrap();
    assert_eq!(routes.binding("turn-A"), Some(&binding_a));
    assert_eq!(routes.binding("turn-B"), None);
    routes.complete("turn-A");
    assert_eq!(routes.binding("turn-A"), None);
    routes.started("turn-B", Some("origin-B")).unwrap();
    assert_eq!(
        routes.binding("turn-B"),
        Some(&VoiceTurnBinding {
            native_session_id: "native-A".into(),
            voice_session_generation: 1,
            turn_id: "turn-B".into(),
            origin_id: "origin-B".into(),
            client_id: "origin-B".into(),
            handoff_id: "handoff-origin-B".into(),
        })
    );
    routes.complete("turn-A");
    assert!(routes.binding("turn-B").is_some());
    assert!(routes.started("another-turn", Some("origin-A")).is_err());
    assert!(routes.started("another-turn", Some("origin-B")).is_err());
}

#[test]
fn mismatched_session_and_unknown_client_id_never_gain_routes() {
    let scope = native_a(7);
    let mut routes = VoiceTurnRoutes::new(scope.clone());
    let mut wrong_session = origin(&scope, "origin-A");
    wrong_session.scope.native_session_id = "native-B".into();
    assert!(routes.received(&wrong_session).is_err());
    routes.started("turn-A", Some("origin-A")).unwrap();
    assert_eq!(routes.binding("turn-A"), None);
    routes.received(&origin(&scope, "origin-A")).unwrap();
    routes.started("turn-B", Some("not-the-origin")).unwrap();
    assert_eq!(routes.binding("turn-B"), None);
}

#[test]
fn arrivals_are_refused_with_their_reason() {
    let scope = native_a(1);
    let mut routes = VoiceTurnRoutes::new(scope.clone());
    let mut without_handoff = origin(&scope, "origin-A");
    without_handoff.handoff_id = None;
    assert_eq!(routes.received(&without_handoff), Err("Voice handoff identity missing"));
    without_handoff.handoff_id = Some(String::new());
    assert_eq!(routes.received(&without_handoff), Err("Voice handoff identity missing"));
    routes.received(&origin(&scope, "origin-A")).unwrap();
    let mut conflicting = origin(&scope, "origin-A");
    conflicting.item_id = None;
    assert_eq!(routes.received(&conflicting), Err("Conflicting Voice origin routing identity"));
    let mut older = origin(&scope, "origin-B");
    older.scope.voice_session_generation = 2;
    assert_eq!(
        routes.received(&older),
        Err("Voice origin belongs to another native session")
    );
}

#[test]
fn starts_are_refused_with_their_reason() {
    let scope = native_a(1);
    let mut routes = VoiceTurnRoutes::new(scope.clone());
    routes.received(&origin(&scope, "origin-A")).unwrap();
    routes.received(&origin(&scope, "origin-B")).unwrap();
    assert_eq!(routes.started("", Some("origin-A")), Err("Voice turn identity missing"));
    routes.started("turn-A", Some("origin-A")).unwrap();
    routes.started("turn-A", Some("origin-A")).unwrap();
    assert_eq!(
        routes.started("turn-A", Some("origin-B")),
        Err("Turn already belongs to another Voice origin")
    );
    assert_eq!(
        routes.started("turn-B", Some("origin-A")),
        Err("Voice origin already bound; no rebind after completion")
    );
    routes.complete("turn-A");
    assert_eq!(
        routes.started("turn-A", Some("origin-A")),
        Err("Voice origin already bound; no rebind after completion")
    );
    routes.close();
    assert_eq!(
        routes.started("turn-B", Some("origin-B")),
        Err("Voice session is not sealed")
    );
}

#[test]
fn the_end_of_a_turn_cancels_its_output_alone() {
    let scope = native_a(1);
    let mut routes = VoiceTurnRoutes::new(scope.clone());
    for id in ["origin-A", "origin-B", "origin-C"] {
        routes.received(&origin(&scope, id)).unwrap();
    }
    routes.started("turn-A", Some("origin-A")).unwrap();
    routes.started("turn-B", Some("origin-B")).unwrap();
    routes.started("turn-C", Some("origin-C")).unwrap();
    let output_a = routes.output_route("turn-A").unwrap().1;
    let output_b = routes.output_route("turn-B").unwrap().1;
    let output_c = routes.output_route("turn-C").unwrap().1;
    assert!(!output_a.is_cancelled());

    routes.abort("turn-A");
    assert!(output_a.is_cancelled());
    assert!(!output_b.is_cancelled());
    assert!(routes.output_route("turn-A").is_none());

    routes.complete("turn-B");
    assert!(output_b.is_cancelled());
    assert!(!output_c.is_cancelled());

    routes.close();
    assert!(output_c.is_cancelled());
    assert!(routes.output_route("turn-C").is_none());
}

#[test]
fn an_aborted_handoff_does_not_count_as_started() {
    let scope = native_a(1);
    let mut routes = VoiceTurnRoutes::new(scope.clone());
    routes.received(&origin(&scope, "origin-A")).unwrap();
    routes.received(&origin(&scope, "origin-B")).unwrap();
    assert!(!routes.was_started("handoff-origin-A"));
    routes.started("turn-A", Some("origin-A")).unwrap();
    routes.started("turn-B", Some("origin-B")).unwrap();
    assert!(routes.was_started("handoff-origin-A"));
    routes.abort("turn-A");
    assert!(!routes.was_started("handoff-origin-A"));
    routes.complete("turn-B");
    assert!(routes.was_started("handoff-origin-B"));
}

#[test]
fn a_session_brings_up_so_many_origins_and_no_more() {
    let scope = native_a(1);
    let mut routes = VoiceTurnRoutes::new(scope.clone());
    for index in 0..MAX_SESSION_ORIGINS {
        routes.received(&origin(&scope, &format!("origin-{index}"))).unwrap();
    }
    assert_eq!(
        routes.received(&origin(&scope, "one-more")),
        Err("Voice routing session capacity reached; no implicit eviction")
    );
    routes.received(&origin(&scope, "origin-0")).unwrap();
}

#[test]
fn an_origin_whose_turn_ended_is_bound_to_no_turn_again() {
    let scope = native_a(1);
    let mut routes = VoiceTurnRoutes::new(scope.clone());
    let a = origin(&scope, "origin-A");
    let b = origin(&scope, "origin-B");
    routes.received(&a).unwrap();
    routes.received(&b).unwrap();
    routes.started("turn-A", Some("origin-A")).unwrap();
    routes.started("turn-B", Some("origin-B")).unwrap();
    routes.complete("turn-A");
    routes.abort("turn-B");
    routes.received(&a).unwrap();
    routes.received(&b).unwrap();
    for turn in ["turn-A", "turn-B", "turn-C"] {
        assert!(routes.started(turn, Some("origin-A")).is_err());
        assert!(routes.started(turn, Some("origin-B")).is_err());
        assert!(routes.output_route(turn).is_none());
    }
}

#[test]
fn an_origin_that_arrives_after_an_end_speaks_freely() {
    let scope = native_a(1);
    let mut routes = VoiceTurnRoutes::new(scope.clone());
    routes.received(&origin(&scope, "origin-A")).unwrap();
    routes.started("turn-A", Some("origin-A")).unwrap();
    let output_a = routes.output_route("turn-A").unwrap().1;
    routes.abort("turn-A");
    routes.received(&origin(&scope, "origin-B")).unwrap();
    routes.started("turn-B", Some("origin-B")).unwrap();
    let output_b = routes.output_route("turn-B").unwrap().1;
    assert!(output_a.is_cancelled());
    assert!(!output_b.is_cancelled());
    assert!(output_a != output_b);
}
