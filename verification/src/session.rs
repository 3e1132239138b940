//! The lifecycle of a native voice session, whose identity the provider seals.
//!
//! The session decides and the host delivers: where a step calls for a signal the session hands
//! it out, and is told afterwards whether it was delivered.

use vstd::prelude::*;
use crate::ids::ThreadId;
use crate::origin::{ScopeModel, VoiceAdmissionScope, MAX_IDENTITY_BYTES};
use crate::routing::{RoutesModel, VoiceTurnRoutes};
use crate::text::{blank, byte_len, byte_size, is_blank, opt_text, same_text};

verus! {

/// The largest generation: what a double-precision number can still count one by one.
pub const MAX_GENERATION: u64 = 9_007_199_254_740_991;

/// Takes the next generation from a counter, which never wraps and never exceeds
/// [`MAX_GENERATION`].
pub fn allocate_generation(counter: &mut u64) -> (generation: Result<u64, String>)
    ensures
        match generation {
            Ok(generation) => {
                &&& *old(counter) < MAX_GENERATION
                &&& generation == *old(counter) + 1
                &&& *final(counter) == generation
            },
            Err(message) => {
                &&& *old(counter) >= MAX_GENERATION
                &&& *final(counter) == *old(counter)
                &&& message@ == "Native Voice generation exhausted"@
            },
        },
{
    if *counter < MAX_GENERATION {
        *counter = *counter + 1;
        Ok(*counter)
    } else {
        Err("Native Voice generation exhausted".to_owned())
    }
}

/// What the host is told of a session.
#[derive(Clone, Debug, PartialEq, Eq)]
pub enum VoiceNativeSessionEvent {
    Starting,
    Ready { native_session_id: String },
    Closed { native_session_id: Option<String> },
}

/// An event, with the identities that it belongs to.
#[derive(Clone, Debug, PartialEq, Eq)]
pub struct VoiceNativeSessionSignal {
    pub thread_id: ThreadId,
    pub start_id: String,
    pub voice_generation: u64,
    pub event: VoiceNativeSessionEvent,
}

pub enum EventModel {
    Starting,
    Ready(Seq<char>),
    Closed(Option<Seq<char>>),
}

/// What a [`VoiceNativeSessionSignal`] stands for.
pub struct SignalModel {
    pub thread_id: ThreadId,
    pub start_id: Seq<char>,
    pub voice_generation: u64,
    pub event: EventModel,
}

impl View for VoiceNativeSessionEvent {
    type V = EventModel;

    open spec fn view(&self) -> EventModel {
        match *self {
            VoiceNativeSessionEvent::Starting => EventModel::Starting,
            VoiceNativeSessionEvent::Ready { native_session_id } => EventModel::Ready(
                native_session_id@,
            ),
            VoiceNativeSessionEvent::Closed { native_session_id } => EventModel::Closed(
                opt_text(native_session_id),
            ),
        }
    }
}

impl View for VoiceNativeSessionSignal {
    type V = SignalModel;

    open spec fn view(&self) -> SignalModel {
        SignalModel {
            thread_id: self.thread_id,
            start_id: self.start_id@,
            voice_generation: self.voice_generation,
            event: self.event@,
        }
    }
}

/// What the realtime provider reports, as far as the lifecycle is concerned.
#[derive(Clone, Debug, PartialEq, Eq)]
pub enum RealtimeEvent {
    SessionUpdated { realtime_session_id: String, instructions: Option<String> },
    Other,
}

/// The request that a session is started by.
#[derive(Clone, Debug, PartialEq, Eq)]
pub struct NativeVoiceSessionStart {
    pub thread_id: ThreadId,
    pub start_id: String,
}

/// Whether a signal was delivered, or why not.
pub open spec fn delivery_model(delivery: Result<(), String>) -> Result<(), Seq<char>> {
    match delivery {
        Ok(_) => Ok(()),
        Err(message) => Err(message@),
    }
}

fn copy_delivery(delivery: &Result<(), String>) -> (copy: Result<(), String>)
    ensures
        copy == *delivery,
{
    match delivery {
        Ok(delivered) => Ok(*delivered),
        Err(message) => Err(message.clone()),
    }
}

#[derive(Debug)]
pub enum Phase {
    Starting,
    Sealing(VoiceAdmissionScope),
    Ready(VoiceAdmissionScope),
    Closed { native_session_id: Option<String>, delivery: Option<Result<(), String>> },
}

pub enum PhaseModel {
    Starting,
    /// The identity is known, and readiness is not delivered.
    Sealing(ScopeModel),
    Ready(ScopeModel),
    Closed { native_session_id: Option<Seq<char>>, delivery: Option<Result<(), Seq<char>>> },
}

impl View for Phase {
    type V = PhaseModel;

    open spec fn view(&self) -> PhaseModel {
        match *self {
            Phase::Starting => PhaseModel::Starting,
            Phase::Sealing(scope) => PhaseModel::Sealing(scope@),
            Phase::Ready(scope) => PhaseModel::Ready(scope@),
            Phase::Closed { native_session_id, delivery } => PhaseModel::Closed {
                native_session_id: opt_text(native_session_id),
                delivery: match delivery {
                    Some(delivery) => Some(delivery_model(delivery)),
                    None => None,
                },
            },
        }
    }
}

/// What an observation or a close comes to: it is settled, or a signal has to be delivered first.
#[derive(Debug, PartialEq, Eq)]
pub enum SessionStep {
    Settled(Result<(), String>),
    Deliver(VoiceNativeSessionSignal),
}

pub enum StepModel {
    Settled(Result<(), Seq<char>>),
    Deliver(SignalModel),
}

impl View for SessionStep {
    type V = StepModel;

    open spec fn view(&self) -> StepModel {
        match *self {
            SessionStep::Settled(outcome) => StepModel::Settled(delivery_model(outcome)),
            SessionStep::Deliver(signal) => StepModel::Deliver(signal@),
        }
    }
}

/// Whether a provider's identity can seal a session.
pub open spec fn provider_identity_is_valid(id: Seq<char>) -> bool {
    !blank(id) && byte_size(id) <= MAX_IDENTITY_BYTES
}

/// What a [`NativeVoiceSession`] stands for.
pub struct SessionModel {
    pub thread_id: ThreadId,
    pub start_id: Seq<char>,
    pub generation: u64,
    pub phase: PhaseModel,
    pub routes: RoutesModel,
}

impl SessionModel {
    pub open spec fn starting(thread_id: ThreadId, start_id: Seq<char>, generation: u64) -> Self {
        SessionModel {
            thread_id,
            start_id,
            generation,
            phase: PhaseModel::Starting,
            routes: RoutesModel::pending(),
        }
    }

    /// The scope belongs to this generation and is sealed into the routes exactly while the
    /// session is ready.
    pub open spec fn wf(self) -> bool {
        &&& 0 < self.generation <= MAX_GENERATION
        &&& self.routes.wf()
        &&& match self.phase {
            PhaseModel::Sealing(scope) => self.owns(scope),
            PhaseModel::Ready(scope) => self.owns(scope),
            _ => true,
        }
        &&& self.routes.scope == match self.phase {
            PhaseModel::Ready(scope) => Some(scope),
            _ => None,
        }
    }

    pub open spec fn owns(self, scope: ScopeModel) -> bool {
        scope.voice_session_generation == self.generation && provider_identity_is_valid(
            scope.native_session_id,
        )
    }

    pub open spec fn signal(self, event: EventModel) -> SignalModel {
        SignalModel {
            thread_id: self.thread_id,
            start_id: self.start_id,
            voice_generation: self.generation,
            event,
        }
    }

    /// What comes of the delivery of the start: a session that could not be announced is closed.
    pub open spec fn starting_delivered(self, delivery: Result<(), Seq<char>>) -> (
        SessionModel,
        Option<StepModel>,
    ) {
        match delivery {
            Ok(_) => (self, None),
            Err(_) => {
                let (closed, step) = self.begin_close();
                (closed, Some(step))
            },
        }
    }

    /// What comes of the provider naming the session.
    pub open spec fn observe(self, id: Seq<char>) -> (SessionModel, StepModel) {
        match self.phase {
            PhaseModel::Closed { .. } => (
                self,
                StepModel::Settled(Err("Native Voice session is closed"@)),
            ),
            PhaseModel::Ready(scope) => if scope.native_session_id == id {
                (self, StepModel::Settled(Ok(())))
            } else {
                (
                    self,
                    StepModel::Settled(Err("Provider changed sealed native session identity"@)),
                )
            },
            PhaseModel::Sealing(_) => (
                self,
                StepModel::Settled(Err("Native Voice readiness delivery is unresolved"@)),
            ),
            PhaseModel::Starting => if provider_identity_is_valid(id) {
                let scope = ScopeModel {
                    native_session_id: id,
                    voice_session_generation: self.generation,
                };
                (
                    SessionModel { phase: PhaseModel::Sealing(scope), ..self },
                    StepModel::Deliver(self.signal(EventModel::Ready(id))),
                )
            } else {
                (self, StepModel::Settled(Err("Provider native session identity is invalid"@)))
            },
        }
    }

    /// What comes of the delivery of readiness: the session is ready only if it succeeded.
    pub open spec fn ready_delivered(self, delivery: Result<(), Seq<char>>) -> SessionModel {
        match (self.phase, delivery) {
            (PhaseModel::Sealing(scope), Ok(_)) => SessionModel {
                phase: PhaseModel::Ready(scope),
                routes: self.routes.seal(scope),
                ..self
            },
            _ => self,
        }
    }

    /// The identity that readiness was announced with, if any.
    pub open spec fn announced(self) -> Option<Seq<char>> {
        match self.phase {
            PhaseModel::Starting => None,
            PhaseModel::Sealing(scope) => Some(scope.native_session_id),
            PhaseModel::Ready(scope) => Some(scope.native_session_id),
            PhaseModel::Closed { native_session_id, .. } => native_session_id,
        }
    }

    pub open spec fn scope(self) -> Option<ScopeModel> {
        match self.phase {
            PhaseModel::Ready(scope) => Some(scope),
            _ => None,
        }
    }

    /// The session without its authority: closed, with nothing routed.
    pub open spec fn retire(self) -> SessionModel {
        SessionModel {
            phase: match self.phase {
                PhaseModel::Closed { .. } => self.phase,
                PhaseModel::Starting => PhaseModel::Closed {
                    native_session_id: None,
                    delivery: None,
                },
                PhaseModel::Ready(scope) => PhaseModel::Closed {
                    native_session_id: Some(scope.native_session_id),
                    delivery: None,
                },
                PhaseModel::Sealing(scope) => PhaseModel::Closed {
                    native_session_id: Some(scope.native_session_id),
                    delivery: None,
                },
            },
            routes: self.routes.close(),
            ..self
        }
    }

    /// Retires the session. The close is announced unless that was tried before, in which case
    /// the outcome of that attempt stands.
    pub open spec fn begin_close(self) -> (SessionModel, StepModel) {
        let closed = self.retire();
        (
            closed,
            match closed.phase {
                PhaseModel::Closed { delivery: Some(outcome), .. } => StepModel::Settled(outcome),
                PhaseModel::Closed { native_session_id, .. } => StepModel::Deliver(
                    self.signal(EventModel::Closed(native_session_id)),
                ),
                _ => arbitrary(),
            },
        )
    }

    /// Records what came of announcing the close.
    pub open spec fn close_delivered(self, delivery: Result<(), Seq<char>>) -> SessionModel {
        match self.phase {
            PhaseModel::Closed { native_session_id, delivery: None } => SessionModel {
                phase: PhaseModel::Closed { native_session_id, delivery: Some(delivery) },
                ..self
            },
            _ => self,
        }
    }
}

/// A native voice session.
#[derive(Debug)]
pub struct NativeVoiceSession {
    pub start: NativeVoiceSessionStart,
    pub generation: u64,
    pub phase: Phase,
    pub routes: VoiceTurnRoutes,
}

impl View for NativeVoiceSession {
    type V = SessionModel;

    open spec fn view(&self) -> SessionModel {
        SessionModel {
            thread_id: self.start.thread_id,
            start_id: self.start.start_id@,
            generation: self.generation,
            phase: self.phase@,
            routes: self.routes@,
        }
    }
}

impl NativeVoiceSession {
    pub open spec fn wf(self) -> bool {
        &&& self@.wf()
        &&& self.routes.wf()
    }

    /// Starts a session in the next generation, with the signal that announces it.
    pub fn begin(start: NativeVoiceSessionStart, counter: &mut u64) -> (outcome: Result<
        (NativeVoiceSession, VoiceNativeSessionSignal),
        String,
    >)
        ensures
            match outcome {
                Ok((session, signal)) => {
                    &&& *old(counter) < MAX_GENERATION
                    &&& *final(counter) == *old(counter) + 1
                    &&& session.wf()
                    &&& session@ == SessionModel::starting(
                        start.thread_id,
                        start.start_id@,
                        *final(counter),
                    )
                    &&& signal@ == session@.signal(EventModel::Starting)
                },
                Err(message) => {
                    &&& *old(counter) >= MAX_GENERATION
                    &&& *final(counter) == *old(counter)
                    &&& message@ == "Native Voice generation exhausted"@
                },
            },
    {
        let generation: u64 = match allocate_generation(counter) {
            Ok(generation) => generation,
            Err(message) => {
                return Err(message);
            },
        };
        let session = NativeVoiceSession {
            start,
            generation,
            phase: Phase::Starting,
            routes: VoiceTurnRoutes::pending(),
        };
        let signal = session.signal(VoiceNativeSessionEvent::Starting);
        proof {
            session.routes.lemma_wf();
        }
        Ok((session, signal))
    }

    /// Takes the outcome of delivering the signal that [`NativeVoiceSession::begin`] hands out. If
    /// that failed the session begins to close; once the step that comes with the failure is
    /// taken, whatever comes of it, the failure is the answer to who wanted the session.
    pub fn starting_delivered(&mut self, delivery: Result<(), String>) -> (outcome: Result<
        (),
        (String, SessionStep),
    >)
        requires
            old(self).wf(),
        ensures
            final(self).wf(),
            final(self)@ == old(self)@.starting_delivered(delivery_model(delivery)).0,
            match outcome {
                Ok(_) => delivery is Ok && *final(self) == *old(self),
                Err((message, step)) => {
                    &&& delivery == Err::<(), _>(message)
                    &&& old(self)@.starting_delivered(delivery_model(delivery)).1 == Some(step@)
                    &&& step is Deliver ==> final(self)@.awaits_close_delivery()
                },
            },
    {
        match delivery {
            Ok(delivered) => Ok(delivered),
            Err(message) => {
                let step = self.begin_close();
                Err((message, step))
            },
        }
    }

    /// Whether this is the session of that start request and generation. A start request may be
    /// repeated, a generation is not.
    pub fn matches(&self, start_id: &str, generation: u64) -> (same: bool)
        ensures
            same == (self@.start_id == start_id@ && self@.generation == generation),
    {
        same_text(self.start.start_id.as_str(), start_id) && self.generation == generation
    }

    /// The thread that the session belongs to.
    pub fn thread_id(&self) -> (thread_id: ThreadId)
        ensures
            thread_id == self@.thread_id,
    {
        self.start.thread_id
    }

    /// The generation of the session.
    pub fn generation(&self) -> (generation: u64)
        ensures
            generation == self@.generation,
    {
        self.generation
    }

    /// An event of this session, ready for delivery.
    pub fn signal(&self, event: VoiceNativeSessionEvent) -> (signal: VoiceNativeSessionSignal)
        ensures
            signal@ == self@.signal(event@),
    {
        VoiceNativeSessionSignal {
            thread_id: self.start.thread_id,
            start_id: self.start.start_id.clone(),
            voice_generation: self.generation,
            event,
        }
    }

    /// Takes note of what the provider reports. The identity comes from the provider's session,
    /// never from the start request.
    pub fn observe(&mut self, event: &RealtimeEvent) -> (step: SessionStep)
        requires
            old(self).wf(),
        ensures
            final(self).wf(),
            match *event {
                RealtimeEvent::SessionUpdated { realtime_session_id, .. } => (
                    final(self)@,
                    step@,
                ) == old(self)@.observe(realtime_session_id@),
                RealtimeEvent::Other => *final(self) == *old(self) && step@ == StepModel::Settled(
                    Ok(()),
                ),
            },
    {
        let realtime_session_id = match event {
            RealtimeEvent::SessionUpdated { realtime_session_id, .. } => realtime_session_id,
            RealtimeEvent::Other => {
                return SessionStep::Settled(Ok(()));
            },
        };
        match &self.phase {
            Phase::Closed { .. } => {
                return SessionStep::Settled(Err("Native Voice session is closed".to_owned()));
            },
            Phase::Ready(scope) => {
                return if same_text(
                    scope.native_session_id.as_str(),
                    realtime_session_id.as_str(),
                ) {
                    SessionStep::Settled(Ok(()))
                } else {
                    SessionStep::Settled(
                        Err("Provider changed sealed native session identity".to_owned()),
                    )
                };
            },
            Phase::Sealing(_) => {
                return SessionStep::Settled(
                    Err("Native Voice readiness delivery is unresolved".to_owned()),
                );
            },
            Phase::Starting => {},
        }
        if is_blank(realtime_session_id.as_str()) || byte_len(realtime_session_id.as_str())
            > MAX_IDENTITY_BYTES {
            return SessionStep::Settled(
                Err("Provider native session identity is invalid".to_owned()),
            );
        }
        self.phase = Phase::Sealing(
            VoiceAdmissionScope {
                native_session_id: realtime_session_id.clone(),
                voice_session_generation: self.generation,
            },
        );
        SessionStep::Deliver(
            self.signal(
                VoiceNativeSessionEvent::Ready { native_session_id: realtime_session_id.clone() },
            ),
        )
    }

    /// Whether readiness is waiting for the outcome of its delivery.
    pub fn is_sealing(&self) -> (sealing: bool)
        ensures
            sealing == (self@.phase is Sealing),
    {
        match self.phase {
            Phase::Sealing(_) => true,
            _ => false,
        }
    }

    /// Takes the outcome of delivering readiness. Without a delivery the session does not become
    /// ready.
    pub fn ready_delivered(&mut self, delivery: Result<(), String>) -> (outcome: Result<(), String>)
        requires
            old(self).wf(),
            old(self)@.phase is Sealing,
        ensures
            final(self).wf(),
            final(self)@ == old(self)@.ready_delivered(delivery_model(delivery)),
            outcome == delivery,
    {
        match delivery {
            Ok(delivered) => {
                let scope = match &self.phase {
                    Phase::Sealing(scope) => scope.clone(),
                    _ => {
                        return Ok(delivered);
                    },
                };
                self.routes.seal(scope.clone());
                proof {
                    self.routes.lemma_wf();
                }
                self.phase = Phase::Ready(scope);
                Ok(delivered)
            },
            Err(message) => Err(message),
        }
    }

    /// The sealed scope, which exists only while the session is ready.
    pub fn scope(&self) -> (scope: Result<VoiceAdmissionScope, &'static str>)
        ensures
            match scope {
                Ok(scope) => self@.scope() == Some(scope@),
                Err(message) => self@.scope() is None && message@
                    == "Native Voice session is not ready"@,
            },
    {
        match &self.phase {
            Phase::Ready(scope) => Ok(scope.clone()),
            _ => Err("Native Voice session is not ready"),
        }
    }

    /// Takes the session's authority away.
    pub fn retire(&mut self)
        requires
            old(self).wf(),
        ensures
            final(self).wf(),
            final(self)@ == old(self)@.retire(),
    {
        let retired = match &self.phase {
            Phase::Closed { .. } => None,
            Phase::Starting => Some(None),
            Phase::Ready(scope) => Some(Some(scope.native_session_id.clone())),
            Phase::Sealing(scope) => Some(Some(scope.native_session_id.clone())),
        };
        if let Some(native_session_id) = retired {
            self.phase = Phase::Closed { native_session_id, delivery: None };
        }
        self.routes.close();
        proof {
            self.routes.lemma_wf();
        }
    }

    /// Retires the session, and hands out the announcement of its close unless one was tried.
    pub fn begin_close(&mut self) -> (step: SessionStep)
        requires
            old(self).wf(),
        ensures
            final(self).wf(),
            (final(self)@, step@) == old(self)@.begin_close(),
            step is Deliver ==> final(self)@.awaits_close_delivery(),
    {
        self.retire();
        let native_session_id = match &self.phase {
            Phase::Closed { native_session_id, delivery } => match delivery {
                Some(outcome) => {
                    return SessionStep::Settled(copy_delivery(outcome));
                },
                None => native_session_id.clone(),
            },
            _ => None,
        };
        SessionStep::Deliver(self.signal(VoiceNativeSessionEvent::Closed { native_session_id }))
    }

    /// Whether the close is waiting for the outcome of its announcement.
    pub fn is_awaiting_close_delivery(&self) -> (waiting: bool)
        ensures
            waiting == self@.awaits_close_delivery(),
    {
        match &self.phase {
            Phase::Closed { delivery, .. } => delivery.is_none(),
            _ => false,
        }
    }

    /// Takes the outcome of announcing the close. A failure is kept: closing again does not turn
    /// it into an acknowledgement.
    pub fn close_delivered(&mut self, delivery: Result<(), String>) -> (outcome: Result<(), String>)
        requires
            old(self).wf(),
            old(self)@.awaits_close_delivery(),
        ensures
            final(self).wf(),
            final(self)@ == old(self)@.close_delivered(delivery_model(delivery)),
            outcome == delivery,
    {
        let native_session_id = match &self.phase {
            Phase::Closed { native_session_id, .. } => native_session_id.clone(),
            _ => None,
        };
        self.phase = Phase::Closed {
            native_session_id,
            delivery: Some(copy_delivery(&delivery)),
        };
        delivery
    }
}

impl SessionModel {
    pub open spec fn awaits_close_delivery(self) -> bool {
        self.phase matches PhaseModel::Closed { delivery, .. } && delivery is None
    }
}

} // verus!
