//! The origin of a spoken submission, fixed before it is rendered into text for the model.

use vstd::prelude::*;
use crate::ids::ThreadId;
use crate::json::{identities_are_unambiguous, identity_json, identity_text};
use crate::text::{
    blank, byte_len, byte_size, is_blank, is_white_space, opt_text, same_text,
};

verus! {

/// The longest session, handoff or item identity that is accepted, in bytes.
pub const MAX_IDENTITY_BYTES: usize = 1024;

/// The attachment of one native session. Its generation and its identity are supplied by the
/// host; neither is inferred from text.
#[derive(Debug, PartialEq, Eq)]
pub struct VoiceAdmissionScope {
    pub voice_session_generation: u64,
    pub native_session_id: String,
}

/// What a [`VoiceAdmissionScope`] stands for.
pub struct ScopeModel {
    pub voice_session_generation: u64,
    pub native_session_id: Seq<char>,
}

impl View for VoiceAdmissionScope {
    type V = ScopeModel;

    open spec fn view(&self) -> ScopeModel {
        ScopeModel {
            voice_session_generation: self.voice_session_generation,
            native_session_id: self.native_session_id@,
        }
    }
}

impl Clone for VoiceAdmissionScope {
    fn clone(&self) -> (copy: Self)
        ensures
            copy == *self,
    {
        VoiceAdmissionScope {
            voice_session_generation: self.voice_session_generation,
            native_session_id: self.native_session_id.clone(),
        }
    }
}

impl VoiceAdmissionScope {
    /// Whether both name the same session in the same generation.
    pub fn same(&self, other: &VoiceAdmissionScope) -> (same: bool)
        ensures
            same == (self@ == other@),
    {
        self.voice_session_generation == other.voice_session_generation && same_text(
            self.native_session_id.as_str(),
            other.native_session_id.as_str(),
        )
    }
}

/// A spoken submission with the origin it was admitted under.
#[derive(Debug, PartialEq, Eq)]
pub struct VoiceAdmissionInput {
    pub thread_id: ThreadId,
    pub scope: VoiceAdmissionScope,
    pub origin_id: String,
    pub handoff_id: Option<String>,
    pub item_id: Option<String>,
    pub text: String,
}

/// What a [`VoiceAdmissionInput`] stands for.
pub struct InputModel {
    pub thread_id: ThreadId,
    pub scope: ScopeModel,
    pub origin_id: Seq<char>,
    pub handoff_id: Option<Seq<char>>,
    pub item_id: Option<Seq<char>>,
    pub text: Seq<char>,
}

impl View for VoiceAdmissionInput {
    type V = InputModel;

    open spec fn view(&self) -> InputModel {
        InputModel {
            thread_id: self.thread_id,
            scope: self.scope@,
            origin_id: self.origin_id@,
            handoff_id: opt_text(self.handoff_id),
            item_id: opt_text(self.item_id),
            text: self.text@,
        }
    }
}

impl Clone for VoiceAdmissionInput {
    fn clone(&self) -> (copy: Self)
        ensures
            copy == *self,
    {
        VoiceAdmissionInput {
            thread_id: self.thread_id,
            scope: self.scope.clone(),
            origin_id: self.origin_id.clone(),
            handoff_id: self.handoff_id.clone(),
            item_id: self.item_id.clone(),
            text: self.text.clone(),
        }
    }
}

/// Acceptance into the durable queue. It is no evidence that a turn has started.
#[derive(Clone, Debug, PartialEq, Eq)]
pub struct VoiceAdmissionAck {
    pub queued_item_id: String,
}

/// A handoff that the realtime provider asks for.
#[derive(Clone, Debug, PartialEq, Eq)]
pub struct RealtimeHandoffRequested {
    pub handoff_id: String,
    pub item_id: String,
    pub input_transcript: String,
}

/// Whether an origin can be made of these identities, for that text.
pub open spec fn origin_is_valid(
    scope: ScopeModel,
    handoff_id: Seq<char>,
    item_id: Seq<char>,
    text: Seq<char>,
) -> bool {
    &&& 0 < scope.voice_session_generation <= i64::MAX
    &&& 0 < scope.native_session_id.len()
    &&& byte_size(scope.native_session_id) <= MAX_IDENTITY_BYTES
    &&& 0 < handoff_id.len()
    &&& byte_size(handoff_id) <= MAX_IDENTITY_BYTES
    &&& byte_size(item_id) <= MAX_IDENTITY_BYTES
    &&& !blank(text)
}

/// The submission of a handoff. Its origin is the session, the generation and the handoff, never
/// a digest of the text; an empty item identity counts as none.
pub open spec fn admitted_input(
    thread_id: ThreadId,
    scope: ScopeModel,
    handoff_id: Seq<char>,
    item_id: Seq<char>,
    text: Seq<char>,
) -> InputModel {
    InputModel {
        thread_id,
        scope,
        origin_id: identity_text(
            scope.native_session_id,
            scope.voice_session_generation,
            handoff_id,
        ),
        handoff_id: Some(handoff_id),
        item_id: if item_id.len() == 0 {
            None
        } else {
            Some(item_id)
        },
        text,
    }
}

/// Prepares the submission of a handoff, unless an identity is missing or invalid.
pub fn voice_admission_input(
    thread_id: ThreadId,
    scope: &VoiceAdmissionScope,
    handoff: &RealtimeHandoffRequested,
    text: String,
) -> (outcome: Result<VoiceAdmissionInput, &'static str>)
    ensures
        match outcome {
            Ok(input) => {
                &&& origin_is_valid(scope@, handoff.handoff_id@, handoff.item_id@, text@)
                &&& input@ == admitted_input(
                    thread_id,
                    scope@,
                    handoff.handoff_id@,
                    handoff.item_id@,
                    text@,
                )
            },
            Err(message) => {
                &&& !origin_is_valid(scope@, handoff.handoff_id@, handoff.item_id@, text@)
                &&& message@ == "Voice origin identity is missing or invalid"@
            },
        },
        outcome matches Ok(input) ==> {
            &&& input.thread_id == thread_id
            &&& input.scope.native_session_id@ == scope.native_session_id@
            &&& input.scope.voice_session_generation == scope.voice_session_generation
            &&& input.handoff_id matches Some(id) && id@ == handoff.handoff_id@
            &&& handoff.item_id@.len() == 0 ==> input.item_id is None
            &&& handoff.item_id@.len() > 0 ==> (input.item_id matches Some(id) && id@
                == handoff.item_id@)
            &&& input.text@ == text@
        },
{
    let native_session_id = scope.native_session_id.as_str();
    let handoff_id = handoff.handoff_id.as_str();
    let item_id = handoff.item_id.as_str();
    if scope.voice_session_generation == 0 || scope.voice_session_generation > i64::MAX as u64
        || native_session_id.is_empty() || byte_len(native_session_id) > MAX_IDENTITY_BYTES
        || handoff_id.is_empty() || byte_len(handoff_id) > MAX_IDENTITY_BYTES || byte_len(item_id)
        > MAX_IDENTITY_BYTES || is_blank(text.as_str()) {
        return Err("Voice origin identity is missing or invalid");
    }
    let origin_id = match identity_json(
        native_session_id,
        scope.voice_session_generation,
        handoff_id,
    ) {
        Ok(origin_id) => origin_id,
        Err(_) => {
            return Err("Voice origin serialization failed");
        },
    };
    Ok(
        VoiceAdmissionInput {
            thread_id,
            scope: scope.clone(),
            origin_id,
            handoff_id: Some(handoff.handoff_id.clone()),
            item_id: if item_id.is_empty() {
                None
            } else {
                Some(handoff.item_id.clone())
            },
            text,
        },
    )
}

/// Two submissions have one origin exactly when they come from one handoff of one session in one
/// generation, whatever their threads, items and words are.
pub proof fn origins_depend_on_session_generation_and_handoff(
    thread: ThreadId,
    scope: ScopeModel,
    handoff: Seq<char>,
    item: Seq<char>,
    text: Seq<char>,
    other_thread: ThreadId,
    other_scope: ScopeModel,
    other_handoff: Seq<char>,
    other_item: Seq<char>,
    other_text: Seq<char>,
)
    ensures
        admitted_input(thread, scope, handoff, item, text).origin_id == admitted_input(
            other_thread,
            other_scope,
            other_handoff,
            other_item,
            other_text,
        ).origin_id <==> scope == other_scope && handoff == other_handoff,
{
    identities_are_unambiguous(
        scope.native_session_id,
        scope.voice_session_generation,
        handoff,
        other_scope.native_session_id,
        other_scope.voice_session_generation,
        other_handoff,
    );
}

/// An origin is given exactly to what is identified: a session and a handoff with identities of
/// one to 1024 bytes, an item identity of at most 1024, a generation that a signed number holds
/// and that is not zero, and a text with something in it besides white space.
pub proof fn an_origin_is_given_to_what_is_identified(
    scope: ScopeModel,
    handoff_id: Seq<char>,
    item_id: Seq<char>,
    text: Seq<char>,
)
    ensures
        origin_is_valid(scope, handoff_id, item_id, text) <==> {
            &&& 1 <= scope.voice_session_generation <= 0x7fff_ffff_ffff_ffff
            &&& scope.native_session_id != Seq::<char>::empty()
            &&& vstd::utf8::encode_utf8(scope.native_session_id).len() <= 1024
            &&& handoff_id != Seq::<char>::empty()
            &&& vstd::utf8::encode_utf8(handoff_id).len() <= 1024
            &&& vstd::utf8::encode_utf8(item_id).len() <= 1024
            &&& exists|i: int| 0 <= i < text.len() && !is_white_space(#[trigger] text[i])
        },
{
    if scope.native_session_id.len() == 0 {
        assert(scope.native_session_id =~= Seq::<char>::empty());
    }
    if handoff_id.len() == 0 {
        assert(handoff_id =~= Seq::<char>::empty());
    }
}

/// The submission carries what the provider gave: the thread, the scope and the words of the
/// request, the handoff, and the item exactly if it has an identity. So two handoffs with
/// different items give submissions with different items, and different handoffs, scopes,
/// threads or words are kept apart as well.
pub proof fn a_submission_carries_what_was_given(
    thread: ThreadId,
    scope: ScopeModel,
    handoff: Seq<char>,
    item: Seq<char>,
    text: Seq<char>,
    other_thread: ThreadId,
    other_scope: ScopeModel,
    other_handoff: Seq<char>,
    other_item: Seq<char>,
    other_text: Seq<char>,
)
    ensures
        ({
            let input = admitted_input(thread, scope, handoff, item, text);
            let other = admitted_input(
                other_thread,
                other_scope,
                other_handoff,
                other_item,
                other_text,
            );
            &&& input.thread_id == thread
            &&& input.scope == scope
            &&& input.handoff_id == Some(handoff)
            &&& item.len() > 0 ==> input.item_id == Some(item)
            &&& item.len() == 0 ==> input.item_id is None
            &&& input.text == text
            &&& input.item_id == other.item_id <==> item == other_item
            &&& input == other <==> {
                &&& thread == other_thread
                &&& scope == other_scope
                &&& handoff == other_handoff
                &&& item == other_item
                &&& text == other_text
            }
        }),
{
    if item.len() == 0 && other_item.len() == 0 {
        assert(item =~= other_item);
    }
}

} // verus!
