//! The lifecycle of a native session, with an observer that may refuse to be told.

use voice_admission::ids::ThreadId;
use voice_admission::origin::{
    voice_admission_input, RealtimeHandoffRequested, VoiceAdmissionScope,
};
use voice_admission::session::{
    allocate_generation, NativeVoiceSession, NativeVoiceSessionStart, RealtimeEvent, SessionStep,
    VoiceNativeSessionEvent, VoiceNativeSessionSignal, MAX_GENERATION,
};

#[derive(Default)]
struct Observer {
    signals: Vec<VoiceNativeSessionSignal>,
    reject_starting: bool,
    reject_ready: bool,
    reject_closed: bool,
}

impl Observer {
    fn emit(&mut self, signal: VoiceNativeSessionSignal) -> Result<(), String> {
        let reject = (self.reject_starting
            && matches!(&signal.event, VoiceNativeSessionEvent::Starting))
            || (self.reject_ready
                && matches!(&signal.event, VoiceNativeSessionEvent::Ready { .. }))
            || (self.reject_closed
                && matches!(&signal.event, VoiceNativeSessionEvent::Closed { .. }));
        self.signals.push(signal);
        if reject {
            Err("observer disconnected".into())
        } else {
            Ok(())
        }
    }

    fn begin(&mut self, counter: &mut u64) -> Result<NativeVoiceSession, String> {
        let (mut session, signal) = NativeVoiceSession::begin(start(), counter)?;
        let delivery = self.emit(signal);
        match session.starting_delivered(delivery) {
            Ok(()) => Ok(session),
            Err((error, step)) => {
                if let SessionStep::Deliver(signal) = step {
                    let delivery = self.emit(signal);
                    let _ = session.close_delivered(delivery);
                }
                Err(error)
            }
        }
    }

    fn observe(&mut self, native: &mut NativeVoiceSession, id: &str) -> Result<(), String> {
        match native.observe(&provider_session(id)) {
            SessionStep::Settled(outcome) => outcome,
            SessionStep::Deliver(signal) => {
                let delivery = self.emit(signal);
                native.ready_delivered(delivery)
            }
        }
    }

    fn close(&mut self, native: &mut NativeVoiceSession) -> Result<(), String> {
        match native.begin_close() {
            SessionStep::Settled(outcome) => outcome,
            SessionStep::Deliver(signal) => {
                let delivery = self.emit(signal);
                native.close_delivered(delivery)
            }
        }
    }
}

fn provider_session(id: &str) -> RealtimeEvent {
    RealtimeEvent::SessionUpdated { realtime_session_id: id.into(), instructions: None }
}

fn start() -> NativeVoiceSessionStart {
    NativeVoiceSessionStart {
        thread_id: ThreadId::from_string("00000000-0000-0000-0000-000000000001").unwrap(),
        start_id: "reused-start-request".into(),
    }
}

#[test]
fn generation_exhaustion_never_wraps_or_exceeds_javascript_safe_integer() {
    let mut counter: u64 = MAX_GENERATION - 1;
    assert_eq!(allocate_generation(&mut counter), Ok(MAX_GENERATION));
    for _ in 0..2 {
        assert_eq!(
            allocate_generation(&mut counter),
            Err("Native Voice generation exhausted".into())
        );
    }
    assert_eq!(counter, MAX_GENERATION);
    assert_eq!(MAX_GENERATION, (1 << 53) - 1);
}

#[test]
fn provider_lifecycle_seals_before_admission_and_exports_immutable_scope() {
    let mut observer = Observer::default();
    let mut native = observer.begin(&mut 0).unwrap();
    assert!(native.scope().is_err());
    observer.observe(&mut native, "provider-A").unwrap();
    let scope = native.scope().unwrap();
    observer.observe(&mut native, "provider-A").unwrap();
    assert!(observer.observe(&mut native, "provider-B").is_err());
    assert_eq!(native.scope().unwrap(), scope);
    let input = voice_admission_input(
        native.thread_id(),
        &scope,
        &RealtimeHandoffRequested {
            handoff_id: "handoff-A".into(),
            item_id: "item-A".into(),
            input_transcript: "words".into(),
        },
        "words".into(),
    )
    .unwrap();
    native.routes.received(&input).unwrap();
    native.routes.started("turn-A", Some(&input.origin_id)).unwrap();
    let cancellation = native.routes.output_route("turn-A").unwrap().1;
    observer.close(&mut native).unwrap();
    observer.close(&mut native).unwrap();
    assert!(native.scope().is_err());
    assert!(cancellation.is_cancelled());
    assert!(native.routes.output_route("turn-A").is_none());
    assert!(native.routes.received(&input).is_err());
    let signal = |event: VoiceNativeSessionEvent| VoiceNativeSessionSignal {
        thread_id: native.thread_id(),
        start_id: "reused-start-request".into(),
        voice_generation: scope.voice_session_generation,
        event,
    };
    assert_eq!(
        observer.signals,
        vec![
            signal(VoiceNativeSessionEvent::Starting),
            signal(VoiceNativeSessionEvent::Ready { native_session_id: "provider-A".into() }),
            signal(VoiceNativeSessionEvent::Closed {
                native_session_id: Some("provider-A".into())
            }),
        ]
    );
}

#[test]
fn observer_rejection_never_seals_ready() {
    let mut observer = Observer { reject_ready: true, ..Default::default() };
    let mut native = observer.begin(&mut 0).unwrap();
    assert!(observer.observe(&mut native, "provider-A").is_err());
    assert!(native.scope().is_err());
    observer.close(&mut native).unwrap();
    assert_eq!(
        observer.signals.last().unwrap().event,
        VoiceNativeSessionEvent::Closed { native_session_id: Some("provider-A".into()) }
    );
}

#[test]
fn retired_callbacks_cannot_bind_successor_with_reused_start_id() {
    let mut counter: u64 = 0;
    let mut observer = Observer::default();
    let mut old = observer.begin(&mut counter).unwrap();
    observer.close(&mut old).unwrap();
    let mut successor = observer.begin(&mut counter).unwrap();
    assert!(
        old.generation() < successor.generation() && successor.generation() <= MAX_GENERATION
    );
    assert!(observer.observe(&mut old, "late-old-provider").is_err());
    assert!(successor.scope().is_err());
    observer.observe(&mut successor, "provider-B").unwrap();
    observer.close(&mut old).unwrap();
    assert_eq!(
        successor.scope().unwrap(),
        VoiceAdmissionScope {
            native_session_id: "provider-B".into(),
            voice_session_generation: successor.generation(),
        }
    );
    assert_eq!(
        observer
            .signals
            .iter()
            .filter(|signal| matches!(&signal.event, VoiceNativeSessionEvent::Ready { .. }))
            .count(),
        1
    );
}

#[test]
fn missing_or_invalid_provider_identity_never_enables_admission() {
    let mut observer = Observer::default();
    let mut native = observer.begin(&mut 0).unwrap();
    for id in [String::new(), " ".into(), "s".repeat(1025)] {
        assert!(observer.observe(&mut native, &id).is_err());
        assert!(native.scope().is_err());
    }
    observer.close(&mut native).unwrap();
    assert_eq!(
        observer.signals.last().unwrap().event,
        VoiceNativeSessionEvent::Closed { native_session_id: None }
    );
}

#[test]
fn failed_close_delivery_is_sticky_and_never_acknowledged_by_retry() {
    let mut observer = Observer { reject_closed: true, ..Default::default() };
    let mut native = observer.begin(&mut 0).unwrap();
    observer.observe(&mut native, "provider-A").unwrap();
    assert_eq!(observer.close(&mut native), Err("observer disconnected".into()));
    assert_eq!(observer.close(&mut native), Err("observer disconnected".into()));
    assert!(native.scope().is_err());
    assert_eq!(
        observer
            .signals
            .iter()
            .filter(|signal| matches!(&signal.event, VoiceNativeSessionEvent::Closed { .. }))
            .count(),
        1
    );
}

#[test]
fn readiness_under_way_admits_nothing() {
    let (mut native, _) = NativeVoiceSession::begin(start(), &mut 0).unwrap();
    assert!(!native.is_sealing());
    assert!(matches!(native.observe(&provider_session("provider-A")), SessionStep::Deliver(_)));
    assert!(native.is_sealing());
    assert_eq!(native.scope(), Err("Native Voice session is not ready"));
    assert_eq!(
        native.observe(&provider_session("provider-A")),
        SessionStep::Settled(Err("Native Voice readiness delivery is unresolved".into()))
    );
    native.ready_delivered(Ok(())).unwrap();
    assert!(native.scope().is_ok());
}

#[test]
fn every_refusal_of_an_identity_has_its_reason() {
    let mut observer = Observer::default();
    let mut native = observer.begin(&mut 0).unwrap();
    assert_eq!(
        observer.observe(&mut native, "\t"),
        Err("Provider native session identity is invalid".into())
    );
    observer.observe(&mut native, &"s".repeat(1024)).unwrap();
    assert_eq!(
        observer.observe(&mut native, "provider-B"),
        Err("Provider changed sealed native session identity".into())
    );
    native.retire();
    assert_eq!(
        observer.observe(&mut native, "provider-B"),
        Err("Native Voice session is closed".into())
    );
    assert!(native.is_awaiting_close_delivery());
    assert_eq!(
        native.observe(&RealtimeEvent::Other),
        SessionStep::Settled(Ok(()))
    );
}

#[test]
fn a_session_is_recognized_by_start_and_generation() {
    let mut counter: u64 = 4;
    let (native, signal) = NativeVoiceSession::begin(start(), &mut counter).unwrap();
    assert_eq!(counter, 5);
    assert_eq!(signal.voice_generation, 5);
    assert!(native.matches("reused-start-request", 5));
    assert!(!native.matches("reused-start-request", 4));
    assert!(!native.matches("another-request", 5));
    assert_eq!(
        NativeVoiceSession::begin(start(), &mut MAX_GENERATION.clone()).err(),
        Some("Native Voice generation exhausted".to_string())
    );
}

#[test]
fn a_session_whose_start_is_refused_is_closed() {
    let mut observer =
        Observer { reject_starting: true, reject_closed: true, ..Default::default() };
    let mut counter: u64 = 0;
    assert_eq!(observer.begin(&mut counter).err(), Some("observer disconnected".to_string()));
    assert_eq!(
        observer.signals.iter().map(|signal| signal.event.clone()).collect::<Vec<_>>(),
        vec![
            VoiceNativeSessionEvent::Starting,
            VoiceNativeSessionEvent::Closed { native_session_id: None },
        ]
    );
    // The generation is spent all the same.
    assert_eq!(counter, 1);

    let (mut native, starting) = NativeVoiceSession::begin(start(), &mut counter).unwrap();
    assert_eq!(starting.voice_generation, 2);
    let (error, step) = native.starting_delivered(Err("refused".into())).unwrap_err();
    assert_eq!(error, "refused");
    assert!(matches!(step, SessionStep::Deliver(_)));
    assert!(native.is_awaiting_close_delivery());
    assert_eq!(
        native.observe(&provider_session("provider-A")),
        SessionStep::Settled(Err("Native Voice session is closed".into()))
    );

    let (mut native, _) = NativeVoiceSession::begin(start(), &mut counter).unwrap();
    assert_eq!(native.starting_delivered(Ok(())), Ok(()));
    assert!(matches!(native.observe(&provider_session("provider-A")), SessionStep::Deliver(_)));
}
