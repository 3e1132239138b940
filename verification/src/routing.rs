//! Routing within one session: which turn speaks for which handoff.
//!
//! Receiving an origin starts nothing. Only an accepted start binds a turn, and a binding is no
//! authority to replay anything.

use tokio_util::sync::CancellationToken;
use vstd::prelude::*;
use crate::cancellation::OutputCancellation;
use crate::origin::{InputModel, ScopeModel, VoiceAdmissionInput, VoiceAdmissionScope};
use crate::text::{opt_text, same_opt_text, same_text};
use crate::text_map::TextMap;

verus! {

/// How many origins one session may bring up. None is ever evicted.
pub const MAX_SESSION_ORIGINS: usize = 4096;

/// The turn that speaks for an origin.
#[derive(Debug, PartialEq, Eq)]
pub struct VoiceTurnBinding {
    pub native_session_id: String,
    pub voice_session_generation: u64,
    pub turn_id: String,
    pub origin_id: String,
    pub client_id: String,
    pub handoff_id: String,
}

/// What a [`VoiceTurnBinding`] stands for.
pub struct BindingModel {
    pub native_session_id: Seq<char>,
    pub voice_session_generation: u64,
    pub turn_id: Seq<char>,
    pub origin_id: Seq<char>,
    pub client_id: Seq<char>,
    pub handoff_id: Seq<char>,
}

impl View for VoiceTurnBinding {
    type V = BindingModel;

    open spec fn view(&self) -> BindingModel {
        BindingModel {
            native_session_id: self.native_session_id@,
            voice_session_generation: self.voice_session_generation,
            turn_id: self.turn_id@,
            origin_id: self.origin_id@,
            client_id: self.client_id@,
            handoff_id: self.handoff_id@,
        }
    }
}

impl Clone for VoiceTurnBinding {
    fn clone(&self) -> (copy: Self)
        ensures
            copy == *self,
    {
        VoiceTurnBinding {
            native_session_id: self.native_session_id.clone(),
            voice_session_generation: self.voice_session_generation,
            turn_id: self.turn_id.clone(),
            origin_id: self.origin_id.clone(),
            client_id: self.client_id.clone(),
            handoff_id: self.handoff_id.clone(),
        }
    }
}

/// An origin that the session has brought up. It stays known after its turn has ended.
#[derive(Debug)]
pub struct ReceivedOrigin {
    handoff_id: String,
    item_id: Option<String>,
    turn_id: Option<String>,
    completed: bool,
    output_cancellation: OutputCancellation,
}

/// What a [`ReceivedOrigin`] stands for.
pub struct OriginModel {
    pub handoff_id: Seq<char>,
    pub item_id: Option<Seq<char>>,
    pub turn_id: Option<Seq<char>>,
    pub completed: bool,
    /// The cancellation of the output of the origin's turn.
    pub token: CancellationToken,
    /// Whether that cancellation has been requested; the origin then holds the evidence.
    pub cancelled: bool,
}

impl View for ReceivedOrigin {
    type V = OriginModel;

    closed spec fn view(&self) -> OriginModel {
        OriginModel {
            handoff_id: self.handoff_id@,
            item_id: opt_text(self.item_id),
            turn_id: opt_text(self.turn_id),
            completed: self.completed,
            token: self.output_cancellation.token(),
            cancelled: self.output_cancellation.requested(),
        }
    }
}

impl OriginModel {
    /// The origin once its turn has ended: complete, with the rest of its output cancelled.
    pub open spec fn retired(self) -> OriginModel {
        OriginModel { completed: true, cancelled: true, ..self }
    }
}

impl ReceivedOrigin {
    fn retire(&mut self)
        ensures
            final(self)@ == old(self)@.retired(),
    {
        self.completed = true;
        self.output_cancellation.cancel();
    }
}

/// `CancellationToken::new`: the handle of a cancellation of its own, which is not requested. The
/// cancellation is newly allocated, and handles are equal only if they share it, so the new one
/// differs from every handle that `known` keeps alive. Nothing is said of handles elsewhere.
#[verifier::external_body]
fn new_handle_beside(_known: &TextMap<ReceivedOrigin>) -> (token: CancellationToken)
    ensures
        forall|id: Seq<char>| #[trigger]
            _known@.contains_key(id) ==> _known@[id]@.token != token,
{
    CancellationToken::new()
}

/// What [`VoiceTurnRoutes`] stand for.
#[verifier::ext_equal]
pub struct RoutesModel {
    pub scope: Option<ScopeModel>,
    pub origins: Map<Seq<char>, OriginModel>,
    pub turns: Map<Seq<char>, BindingModel>,
}

impl RoutesModel {
    /// Routes of a session whose scope is not sealed yet.
    pub open spec fn pending() -> RoutesModel {
        RoutesModel { scope: None, origins: Map::empty(), turns: Map::empty() }
    }

    /// A turn is bound under its own name, to a known origin that is bound to that turn, and
    /// carries the sealed scope and the origin's handoff. Conversely an origin that is bound and
    /// not complete has its turn among the turns. Output is cancelled exactly where the origin is
    /// complete, and no more origins are known than a session may bring up.
    pub open spec fn wf(self) -> bool {
        &&& forall|turn: Seq<char>| #[trigger]
            self.turns.contains_key(turn) ==> self.binding_wf(turn, self.turns[turn])
        &&& forall|origin: Seq<char>| #[trigger]
            self.origins.contains_key(origin) ==> self.origin_wf(origin, self.origins[origin])
        &&& self.origins.dom().finite()
        &&& self.origins.len() <= MAX_SESSION_ORIGINS
    }

    pub open spec fn binding_wf(self, turn: Seq<char>, binding: BindingModel) -> bool {
        &&& binding.turn_id == turn
        &&& binding.client_id == binding.origin_id
        &&& self.origins.contains_key(binding.origin_id)
        &&& self.origins[binding.origin_id].turn_id == Some(turn)
        &&& self.origins[binding.origin_id].handoff_id == binding.handoff_id
        &&& self.scope == Some(
            ScopeModel {
                native_session_id: binding.native_session_id,
                voice_session_generation: binding.voice_session_generation,
            },
        )
    }

    pub open spec fn origin_wf(self, id: Seq<char>, origin: OriginModel) -> bool {
        &&& origin.cancelled == origin.completed
        &&& origin.turn_id is Some && !origin.completed ==> {
            &&& self.turns.contains_key(origin.turn_id->0)
            &&& self.turns[origin.turn_id->0].origin_id == id
        }
    }

    /// No two origins share a cancellation.
    pub open spec fn cancellations_apart(self) -> bool {
        forall|a: Seq<char>, b: Seq<char>| #[trigger]
            self.origins.contains_key(a) && #[trigger] self.origins.contains_key(b) && a != b
                ==> self.origins[a].token != self.origins[b].token
    }

    /// Whether a handle is that of no known origin.
    pub open spec fn is_new_handle(self, token: CancellationToken) -> bool {
        forall|id: Seq<char>| #[trigger]
            self.origins.contains_key(id) ==> self.origins[id].token != token
    }

    pub open spec fn seal(self, scope: ScopeModel) -> RoutesModel {
        RoutesModel { scope: Some(scope), ..self }
    }

    pub open spec fn close(self) -> RoutesModel {
        RoutesModel {
            scope: None,
            origins: self.origins.map_values(|origin: OriginModel| origin.retired()),
            turns: Map::empty(),
        }
    }

    /// What becomes of an origin that arrives; one that is not known yet is given `token`.
    pub open spec fn received(self, input: InputModel, token: CancellationToken) -> (
        RoutesModel,
        Result<(), Seq<char>>,
    ) {
        if self.scope != Some(input.scope) {
            (self, Err("Voice origin belongs to another native session"@))
        } else if input.handoff_id is None || input.handoff_id->0.len() == 0 {
            (self, Err("Voice handoff identity missing"@))
        } else if self.origins.contains_key(input.origin_id) {
            let known = self.origins[input.origin_id];
            if known.handoff_id == input.handoff_id->0 && known.item_id == input.item_id {
                (self, Ok(()))
            } else {
                (self, Err("Conflicting Voice origin routing identity"@))
            }
        } else if self.origins.len() >= MAX_SESSION_ORIGINS {
            (self, Err("Voice routing session capacity reached; no implicit eviction"@))
        } else {
            let origin = OriginModel {
                handoff_id: input.handoff_id->0,
                item_id: input.item_id,
                turn_id: None,
                completed: false,
                token,
                cancelled: false,
            };
            (
                RoutesModel { origins: self.origins.insert(input.origin_id, origin), ..self },
                Ok(()),
            )
        }
    }

    /// What becomes of a turn that starts on behalf of a client.
    pub open spec fn started(self, turn_id: Seq<char>, client_id: Option<Seq<char>>) -> (
        RoutesModel,
        Result<(), Seq<char>>,
    ) {
        if client_id is None || !self.origins.contains_key(client_id->0) {
            (self, Ok(()))
        } else {
            let origin_id = client_id->0;
            let origin = self.origins[origin_id];
            if turn_id.len() == 0 {
                (self, Err("Voice turn identity missing"@))
            } else if origin.turn_id is Some {
                if origin.turn_id == Some(turn_id) && !origin.completed {
                    (self, Ok(()))
                } else {
                    (self, Err("Voice origin already bound; no rebind after completion"@))
                }
            } else if self.turns.contains_key(turn_id) {
                (self, Err("Turn already belongs to another Voice origin"@))
            } else {
                match self.scope {
                    None => (self, Err("Voice session is not sealed"@)),
                    Some(scope) => {
                        let binding = BindingModel {
                            native_session_id: scope.native_session_id,
                            voice_session_generation: scope.voice_session_generation,
                            turn_id,
                            origin_id,
                            client_id: origin_id,
                            handoff_id: origin.handoff_id,
                        };
                        (
                            RoutesModel {
                                origins: self.origins.insert(
                                    origin_id,
                                    OriginModel { turn_id: Some(turn_id), ..origin },
                                ),
                                turns: self.turns.insert(turn_id, binding),
                                ..self
                            },
                            Ok(()),
                        )
                    },
                }
            }
        }
    }

    /// The binding of a turn that has not ended.
    pub open spec fn binding(self, turn_id: Seq<char>) -> Option<BindingModel> {
        if self.turns.contains_key(turn_id) && self.origins.contains_key(
            self.turns[turn_id].origin_id,
        ) && !self.origins[self.turns[turn_id].origin_id].completed {
            Some(self.turns[turn_id])
        } else {
            None
        }
    }

    /// Whether a turn was started for a handoff and not aborted since.
    pub open spec fn was_started(self, handoff_id: Seq<char>) -> bool {
        exists|turn: Seq<char>| #[trigger]
            self.turns.contains_key(turn) && self.turns[turn].handoff_id == handoff_id
    }

    pub open spec fn complete(self, turn_id: Seq<char>) -> RoutesModel {
        if self.turns.contains_key(turn_id) && self.origins.contains_key(
            self.turns[turn_id].origin_id,
        ) {
            let origin_id = self.turns[turn_id].origin_id;
            RoutesModel {
                origins: self.origins.insert(origin_id, self.origins[origin_id].retired()),
                ..self
            }
        } else {
            self
        }
    }

    pub open spec fn abort(self, turn_id: Seq<char>) -> RoutesModel {
        RoutesModel { turns: self.turns.remove(turn_id), ..self.complete(turn_id) }
    }
}

/// The origins and turns of one session.
#[derive(Debug)]
pub struct VoiceTurnRoutes {
    scope: Option<VoiceAdmissionScope>,
    origins: TextMap<ReceivedOrigin>,
    turns: TextMap<VoiceTurnBinding>,
}

impl View for VoiceTurnRoutes {
    type V = RoutesModel;

    closed spec fn view(&self) -> RoutesModel {
        RoutesModel {
            scope: match self.scope {
                Some(scope) => Some(scope@),
                None => None,
            },
            origins: self.origins@.map_values(|origin: ReceivedOrigin| origin@),
            turns: self.turns@.map_values(|binding: VoiceTurnBinding| binding@),
        }
    }
}

/// A map of values seen through a function has the same keys, and so the same size.
proof fn lemma_map_values_len<K, V, W>(map: Map<K, V>, f: spec_fn(V) -> W)
    ensures
        map.map_values(f).dom() == map.dom(),
        map.map_values(f).len() == map.len(),
{
    assert(map.map_values(f).dom() =~= map.dom());
}

impl VoiceTurnRoutes {
    /// The maps inside hold no key twice, what they stand for is well formed, and each origin has
    /// a cancellation of its own.
    pub closed spec fn wf(self) -> bool {
        &&& self.origins.wf()
        &&& self.turns.wf()
        &&& self@.wf()
        &&& self@.cancellations_apart()
    }

    /// Well-formed routes stand for a well-formed model, in which no two origins share a
    /// cancellation.
    pub proof fn lemma_wf(self)
        requires
            self.wf(),
        ensures
            self@.wf(),
            self@.cancellations_apart(),
    {
    }

    /// Routes of a session that is sealed from the start.
    pub fn new(scope: VoiceAdmissionScope) -> (routes: Self)
        ensures
            routes.wf(),
            routes@ == RoutesModel::pending().seal(scope@),
    {
        let mut routes = VoiceTurnRoutes::pending();
        routes.seal(scope);
        routes
    }

    /// Routes of a session whose identity is not known yet.
    pub fn pending() -> (routes: Self)
        ensures
            routes.wf(),
            routes@ == RoutesModel::pending(),
    {
        let routes = VoiceTurnRoutes {
            scope: None,
            origins: TextMap::new(),
            turns: TextMap::new(),
        };
        assert(routes@ =~= RoutesModel::pending());
        routes
    }

    /// Seals the identity of the session.
    pub fn seal(&mut self, scope: VoiceAdmissionScope)
        requires
            old(self).wf(),
            old(self)@.scope is None,
        ensures
            final(self).wf(),
            final(self)@ == old(self)@.seal(scope@),
    {
        self.scope = Some(scope);
        assert(self@ =~= old(self)@.seal(scope@));
        assert forall|turn: Seq<char>| #[trigger] self@.turns.contains_key(turn) implies false by {
            assert(old(self)@.turns.contains_key(turn));
            assert(old(self)@.binding_wf(turn, old(self)@.turns[turn]));
        }
    }

    /// Ends every turn, cancels all output and forgets the identity of the session.
    pub fn close(&mut self)
        requires
            old(self).wf(),
        ensures
            final(self).wf(),
            final(self)@ == old(self)@.close(),
    {
        let ghost before = *self;
        let count: usize = self.origins.len();
        let mut i: usize = 0;
        while i < count
            invariant
                i <= count,
                count == before.origins.keys().len(),
                before.origins.wf(),
                self.origins.wf(),
                self.origins.keys() == before.origins.keys(),
                self.origins@.dom() == before.origins@.dom(),
                forall|j: int|
                    0 <= j < i ==> self.origins@[#[trigger] before.origins.keys()[j]]@
                        == before.origins@[before.origins.keys()[j]]@.retired(),
                forall|j: int|
                    i <= j < count ==> self.origins@[#[trigger] before.origins.keys()[j]]
                        == before.origins@[before.origins.keys()[j]],
            decreases count - i,
        {
            proof {
                before.origins.lemma_keys();
            }
            let ghost earlier = self.origins@;
            let origin = self.origins.value_at_mut(i);
            origin.retire();
            assert(self.origins@.dom() =~= earlier.dom());
            i = i + 1;
        }
        self.turns.clear();
        self.scope = None;
        proof {
            before.origins.lemma_keys();
            assert forall|key: Seq<char>| #[trigger] before.origins@.contains_key(key) implies
                self.origins@[key]@ == before.origins@[key]@.retired() by {
                let j = choose|j: int|
                    0 <= j < before.origins.keys().len() && #[trigger] before.origins.keys()[j]
                        == key;
                assert(before.origins.keys()[j] == key);
            }
            assert(self@.origins =~= before@.close().origins);
            assert(self@ =~= before@.close());
            assert(self@.origins.dom() =~= before@.origins.dom());
        }
    }

    /// Takes note of an origin that arrives, and gives it a cancellation of its own. This binds no
    /// turn.
    pub fn received(&mut self, input: &VoiceAdmissionInput) -> (outcome: Result<(), &'static str>)
        requires
            old(self).wf(),
        ensures
            final(self).wf(),
            ({
                let (next, expected) = old(self)@.received(
                    input@,
                    final(self)@.origins[input@.origin_id].token,
                );
                &&& final(self)@ == next
                &&& match outcome {
                    Ok(_) => expected is Ok,
                    Err(message) => expected == Err::<(), _>(message@),
                }
            }),
            outcome is Ok && !old(self)@.origins.contains_key(input@.origin_id) ==> old(
                self,
            )@.is_new_handle(final(self)@.origins[input@.origin_id].token),
    {
        let same_session: bool = match &self.scope {
            Some(scope) => scope.same(&input.scope),
            None => false,
        };
        if !same_session {
            return Err("Voice origin belongs to another native session");
        }
        let handoff_id = match &input.handoff_id {
            Some(handoff_id) => handoff_id,
            None => {
                return Err("Voice handoff identity missing");
            },
        };
        if handoff_id.as_str().is_empty() {
            return Err("Voice handoff identity missing");
        }
        if let Some(existing) = self.origins.get(input.origin_id.as_str()) {
            return if same_text(existing.handoff_id.as_str(), handoff_id.as_str()) && same_opt_text(
                &existing.item_id,
                &input.item_id,
            ) {
                Ok(())
            } else {
                Err("Conflicting Voice origin routing identity")
            };
        }
        proof {
            lemma_map_values_len(self.origins@, |origin: ReceivedOrigin| origin@);
        }
        if self.origins.len() >= MAX_SESSION_ORIGINS {
            return Err("Voice routing session capacity reached; no implicit eviction");
        }
        let ghost before = *self;
        let origin = ReceivedOrigin {
            handoff_id: handoff_id.clone(),
            item_id: input.item_id.clone(),
            turn_id: None,
            completed: false,
            output_cancellation: OutputCancellation::new(new_handle_beside(&self.origins)),
        };
        self.origins.insert_new(input.origin_id.clone(), origin);
        proof {
            let (next, _) = before@.received(input@, origin@.token);
            assert(self@.origins =~= next.origins);
            assert(self@ =~= next);
            assert forall|turn: Seq<char>| #[trigger] self@.turns.contains_key(turn) implies
                self@.binding_wf(turn, self@.turns[turn]) by {
                assert(before@.turns.contains_key(turn));
                assert(before@.binding_wf(turn, before@.turns[turn]));
            }
        }
        Ok(())
    }

    /// Binds a turn that was accepted to the origin that its client names. Unknown clients are
    /// ordinary: they gain no route.
    pub fn started(&mut self, turn_id: &str, client_id: Option<&str>) -> (outcome: Result<
        (),
        &'static str,
    >)
        requires
            old(self).wf(),
        ensures
            final(self).wf(),
            ({
                let (next, expected) = old(self)@.started(
                    turn_id@,
                    match client_id {
                        Some(client_id) => Some(client_id@),
                        None => None,
                    },
                );
                &&& final(self)@ == next
                &&& match outcome {
                    Ok(_) => expected is Ok,
                    Err(message) => expected == Err::<(), _>(message@),
                }
            }),
    {
        let client_id = match client_id {
            Some(client_id) => client_id,
            None => {
                return Ok(());
            },
        };
        let ghost before = *self;
        let handoff_id = match self.origins.get(client_id) {
            None => {
                return Ok(());
            },
            Some(origin) => {
                if turn_id.is_empty() {
                    return Err("Voice turn identity missing");
                }
                if let Some(existing) = &origin.turn_id {
                    return if same_text(existing.as_str(), turn_id) && !origin.completed {
                        Ok(())
                    } else {
                        Err("Voice origin already bound; no rebind after completion")
                    };
                }
                origin.handoff_id.clone()
            },
        };
        if self.turns.contains_key(turn_id) {
            return Err("Turn already belongs to another Voice origin");
        }
        let binding = match &self.scope {
            None => {
                return Err("Voice session is not sealed");
            },
            Some(scope) => VoiceTurnBinding {
                native_session_id: scope.native_session_id.clone(),
                voice_session_generation: scope.voice_session_generation,
                turn_id: turn_id.to_owned(),
                origin_id: client_id.to_owned(),
                client_id: client_id.to_owned(),
                handoff_id,
            },
        };
        if let Some(origin) = self.origins.get_mut(client_id) {
            origin.turn_id = Some(turn_id.to_owned());
        }
        self.turns.insert_new(turn_id.to_owned(), binding);
        proof {
            let (next, _) = before@.started(turn_id@, Some(client_id@));
            assert(self@.origins =~= next.origins);
            assert(self@.turns =~= next.turns);
            assert(self@ =~= next);
            assert(self@.origins.dom() =~= before@.origins.dom());
            assert forall|turn: Seq<char>| #[trigger] self@.turns.contains_key(turn) implies
                self@.binding_wf(turn, self@.turns[turn]) by {
                if turn != turn_id@ {
                    assert(before@.turns.contains_key(turn));
                    assert(before@.binding_wf(turn, before@.turns[turn]));
                }
            }
        }
        Ok(())
    }

    /// The binding of a turn that has not ended.
    pub fn binding(&self, turn_id: &str) -> (binding: Option<&VoiceTurnBinding>)
        requires
            self.wf(),
        ensures
            match binding {
                Some(binding) => self@.binding(turn_id@) == Some(binding@),
                None => self@.binding(turn_id@) is None,
            },
    {
        match self.turns.get(turn_id) {
            None => None,
            Some(binding) => match self.origins.get(binding.origin_id.as_str()) {
                None => None,
                Some(origin) => if origin.completed {
                    None
                } else {
                    Some(binding)
                },
            },
        }
    }

    /// The binding of a turn that has not ended, with the cancellation of its output.
    pub fn output_route(&self, turn_id: &str) -> (route: Option<
        (VoiceTurnBinding, CancellationToken),
    >)
        requires
            self.wf(),
        ensures
            match route {
                Some((binding, token)) => {
                    &&& self@.binding(turn_id@) == Some(binding@)
                    &&& token == self@.origins[binding@.origin_id].token
                },
                None => self@.binding(turn_id@) is None,
            },
    {
        match self.binding(turn_id) {
            None => None,
            Some(binding) => match self.origins.get(binding.origin_id.as_str()) {
                None => None,
                Some(origin) => Some((binding.clone(), origin.output_cancellation.handle())),
            },
        }
    }

    /// Whether output for a handoff may still drain. A completed turn leaves its handoff known,
    /// so that its last output can be written; an aborted one does not.
    pub fn was_started(&self, handoff_id: &str) -> (started: bool)
        requires
            self.wf(),
        ensures
            started == self@.was_started(handoff_id@),
    {
        let count: usize = self.turns.len();
        let mut i: usize = 0;
        while i < count
            invariant
                self.turns.wf(),
                i <= count == self.turns.keys().len(),
                forall|j: int|
                    0 <= j < i ==> self.turns@[#[trigger] self.turns.keys()[j]]@.handoff_id
                        != handoff_id@,
            decreases count - i,
        {
            let binding = self.turns.value_at(i);
            if same_text(binding.handoff_id.as_str(), handoff_id) {
                assert(self@.turns.contains_key(self.turns.keys()[i as int]));
                return true;
            }
            i = i + 1;
        }
        proof {
            self.turns.lemma_keys();
            assert forall|turn: Seq<char>| #[trigger] self@.turns.contains_key(turn) implies
                self@.turns[turn].handoff_id != handoff_id@ by {
                assert(self.turns@.contains_key(turn));
            }
        }
        false
    }

    /// Ends a turn: no new output is routed, and what is still under way is cancelled.
    pub fn complete(&mut self, turn_id: &str)
        requires
            old(self).wf(),
        ensures
            final(self).wf(),
            final(self)@ == old(self)@.complete(turn_id@),
    {
        let ghost before = *self;
        let origin_id = match self.turns.get(turn_id) {
            Some(binding) => binding.origin_id.clone(),
            None => {
                return;
            },
        };
        if let Some(origin) = self.origins.get_mut(origin_id.as_str()) {
            origin.retire();
        }
        proof {
            let next = before@.complete(turn_id@);
            assert(self@.origins =~= next.origins);
            assert(self@ =~= next);
            assert(self@.origins.dom() =~= before@.origins.dom());
            assert forall|turn: Seq<char>| #[trigger] self@.turns.contains_key(turn) implies
                self@.binding_wf(turn, self@.turns[turn]) by {
                assert(before@.binding_wf(turn, before@.turns[turn]));
            }
        }
    }

    /// Ends a turn without letting its last output drain. The origin stays known, so that a
    /// duplicate arrival or start cannot route it again.
    pub fn abort(&mut self, turn_id: &str)
        requires
            old(self).wf(),
        ensures
            final(self).wf(),
            final(self)@ == old(self)@.abort(turn_id@),
    {
        self.complete(turn_id);
        let ghost before = *self;
        self.turns.remove(turn_id);
        proof {
            assert(self@.turns =~= before@.turns.remove(turn_id@));
            assert(self@ =~= old(self)@.abort(turn_id@));
            assert forall|turn: Seq<char>| #[trigger] self@.turns.contains_key(turn) implies
                self@.binding_wf(turn, self@.turns[turn]) by {
                assert(before@.binding_wf(turn, before@.turns[turn]));
            }
        }
    }
}

} // verus!
