//! Durable evidence of admission, and the table rows it is read from.

use vstd::prelude::*;
use crate::ids::{parsed_uuid, ThreadId};
use crate::text::{blank, is_blank, is_white_space, opt_text, same_text};

verus! {

/// An opaque utterance key of the provider, already scoped by the caller to its origin.
#[derive(Debug, PartialEq, Eq)]
pub struct VoiceQueueOrigin {
    pub native_session_id: String,
    pub voice_session_generation: u64,
    pub origin_id: String,
    pub handoff_id: Option<String>,
    pub item_id: Option<String>,
}

/// What a [`VoiceQueueOrigin`] stands for.
pub struct QueueOriginModel {
    pub native_session_id: Seq<char>,
    pub voice_session_generation: u64,
    pub origin_id: Seq<char>,
    pub handoff_id: Option<Seq<char>>,
    pub item_id: Option<Seq<char>>,
}

impl View for VoiceQueueOrigin {
    type V = QueueOriginModel;

    open spec fn view(&self) -> QueueOriginModel {
        QueueOriginModel {
            native_session_id: self.native_session_id@,
            voice_session_generation: self.voice_session_generation,
            origin_id: self.origin_id@,
            handoff_id: opt_text(self.handoff_id),
            item_id: opt_text(self.item_id),
        }
    }
}

impl Clone for VoiceQueueOrigin {
    fn clone(&self) -> (copy: Self)
        ensures
            copy == *self,
    {
        VoiceQueueOrigin {
            native_session_id: self.native_session_id.clone(),
            voice_session_generation: self.voice_session_generation,
            origin_id: self.origin_id.clone(),
            handoff_id: self.handoff_id.clone(),
            item_id: self.item_id.clone(),
        }
    }
}

/// How far an admission has come.
#[derive(Clone, Copy, Debug, PartialEq, Eq, Structural)]
pub enum VoiceAdmissionResult {
    Queued,
    Claimed,
    Started,
    Ambiguous,
    Rejected,
    Cancelled,
}

/// The name under which a result is stored.
pub open spec fn result_text(result: VoiceAdmissionResult) -> Seq<char> {
    match result {
        VoiceAdmissionResult::Queued => "Queued"@,
        VoiceAdmissionResult::Claimed => "Claimed"@,
        VoiceAdmissionResult::Started => "Started"@,
        VoiceAdmissionResult::Ambiguous => "Ambiguous"@,
        VoiceAdmissionResult::Rejected => "Rejected"@,
        VoiceAdmissionResult::Cancelled => "Cancelled"@,
    }
}

/// The result that a stored name stands for.
pub open spec fn result_of_text(text: Seq<char>) -> Option<VoiceAdmissionResult> {
    if text == "Queued"@ {
        Some(VoiceAdmissionResult::Queued)
    } else if text == "Claimed"@ {
        Some(VoiceAdmissionResult::Claimed)
    } else if text == "Started"@ {
        Some(VoiceAdmissionResult::Started)
    } else if text == "Ambiguous"@ {
        Some(VoiceAdmissionResult::Ambiguous)
    } else if text == "Rejected"@ {
        Some(VoiceAdmissionResult::Rejected)
    } else if text == "Cancelled"@ {
        Some(VoiceAdmissionResult::Cancelled)
    } else {
        None
    }
}

impl VoiceAdmissionResult {
    pub fn text(self) -> (text: &'static str)
        ensures
            text@ == result_text(self),
    {
        match self {
            VoiceAdmissionResult::Queued => "Queued",
            VoiceAdmissionResult::Claimed => "Claimed",
            VoiceAdmissionResult::Started => "Started",
            VoiceAdmissionResult::Ambiguous => "Ambiguous",
            VoiceAdmissionResult::Rejected => "Rejected",
            VoiceAdmissionResult::Cancelled => "Cancelled",
        }
    }

    pub fn from_text(text: &str) -> (result: Option<Self>)
        ensures
            result == result_of_text(text@),
    {
        if same_text(text, "Queued") {
            Some(VoiceAdmissionResult::Queued)
        } else if same_text(text, "Claimed") {
            Some(VoiceAdmissionResult::Claimed)
        } else if same_text(text, "Started") {
            Some(VoiceAdmissionResult::Started)
        } else if same_text(text, "Ambiguous") {
            Some(VoiceAdmissionResult::Ambiguous)
        } else if same_text(text, "Rejected") {
            Some(VoiceAdmissionResult::Rejected)
        } else if same_text(text, "Cancelled") {
            Some(VoiceAdmissionResult::Cancelled)
        } else {
            None
        }
    }
}

/// A stored result is read back as it was written, and no two results share a name.
pub proof fn a_stored_result_is_read_back(
    result: VoiceAdmissionResult,
    other: VoiceAdmissionResult,
)
    ensures
        result_of_text(result_text(result)) == Some(result),
        result_text(result) == result_text(other) <==> result == other,
        forall|text: Seq<char>|
            #![trigger result_of_text(text)]
            result_of_text(text) == Some(result) <==> text == result_text(result),
{
    reveal_strlit("Queued");
    reveal_strlit("Claimed");
    reveal_strlit("Started");
    reveal_strlit("Ambiguous");
    reveal_strlit("Rejected");
    reveal_strlit("Cancelled");
    assert("Queued"@[0] == 'Q');
    assert("Claimed"@[1] == 'l');
    assert("Started"@[0] == 'S');
    assert("Ambiguous"@[0] == 'A');
    assert("Rejected"@[0] == 'R');
    assert("Cancelled"@[1] == 'a');
    assert("Claimed"@[0] == 'C');
    assert("Cancelled"@[0] == 'C');
}

/// Durable evidence of an admission. `Started` is acceptance, not a final result.
#[derive(Debug, PartialEq, Eq)]
pub struct VoiceAdmissionReceipt {
    pub schema: String,
    pub thread_id: ThreadId,
    pub native_session_id: String,
    pub voice_session_generation: u64,
    pub origin_id: String,
    pub handoff_id: Option<String>,
    pub item_id: Option<String>,
    pub queued_item_id: String,
    pub receipt_id: String,
    pub client_id: String,
    /// Where there is none, conflicts are found by comparing the stored payload.
    pub input_digest: Option<String>,
    pub admission_result: VoiceAdmissionResult,
    pub attempt_id: Option<String>,
    pub turn_id: Option<String>,
    pub reason: Option<String>,
}

/// What a [`VoiceAdmissionReceipt`] stands for.
pub struct ReceiptModel {
    pub schema: Seq<char>,
    pub thread_id: ThreadId,
    pub native_session_id: Seq<char>,
    pub voice_session_generation: u64,
    pub origin_id: Seq<char>,
    pub handoff_id: Option<Seq<char>>,
    pub item_id: Option<Seq<char>>,
    pub queued_item_id: Seq<char>,
    pub receipt_id: Seq<char>,
    pub client_id: Seq<char>,
    pub input_digest: Option<Seq<char>>,
    pub admission_result: VoiceAdmissionResult,
    pub attempt_id: Option<Seq<char>>,
    pub turn_id: Option<Seq<char>>,
    pub reason: Option<Seq<char>>,
}

impl View for VoiceAdmissionReceipt {
    type V = ReceiptModel;

    open spec fn view(&self) -> ReceiptModel {
        ReceiptModel {
            schema: self.schema@,
            thread_id: self.thread_id,
            native_session_id: self.native_session_id@,
            voice_session_generation: self.voice_session_generation,
            origin_id: self.origin_id@,
            handoff_id: opt_text(self.handoff_id),
            item_id: opt_text(self.item_id),
            queued_item_id: self.queued_item_id@,
            receipt_id: self.receipt_id@,
            client_id: self.client_id@,
            input_digest: opt_text(self.input_digest),
            admission_result: self.admission_result,
            attempt_id: opt_text(self.attempt_id),
            turn_id: opt_text(self.turn_id),
            reason: opt_text(self.reason),
        }
    }
}

impl Clone for VoiceAdmissionReceipt {
    fn clone(&self) -> (copy: Self)
        ensures
            copy == *self,
    {
        VoiceAdmissionReceipt {
            schema: self.schema.clone(),
            thread_id: self.thread_id,
            native_session_id: self.native_session_id.clone(),
            voice_session_generation: self.voice_session_generation,
            origin_id: self.origin_id.clone(),
            handoff_id: self.handoff_id.clone(),
            item_id: self.item_id.clone(),
            queued_item_id: self.queued_item_id.clone(),
            receipt_id: self.receipt_id.clone(),
            client_id: self.client_id.clone(),
            input_digest: self.input_digest.clone(),
            admission_result: self.admission_result,
            attempt_id: self.attempt_id.clone(),
            turn_id: self.turn_id.clone(),
            reason: self.reason.clone(),
        }
    }
}

/// What came of a claim. Only a rejection that was positively observed may release it.
#[derive(Clone, Debug, PartialEq, Eq)]
pub enum VoiceClaimOutcome {
    Started { turn_id: String },
    RetryableRejection { reason: String },
    Rejected { reason: String },
    Ambiguous { reason: String },
}

/// What a [`VoiceClaimOutcome`] stands for.
pub enum ClaimOutcomeModel {
    Started { turn_id: Seq<char> },
    RetryableRejection { reason: Seq<char> },
    Rejected { reason: Seq<char> },
    Ambiguous { reason: Seq<char> },
}

impl View for VoiceClaimOutcome {
    type V = ClaimOutcomeModel;

    open spec fn view(&self) -> ClaimOutcomeModel {
        match *self {
            VoiceClaimOutcome::Started { turn_id } => ClaimOutcomeModel::Started {
                turn_id: turn_id@,
            },
            VoiceClaimOutcome::RetryableRejection { reason } => {
                ClaimOutcomeModel::RetryableRejection { reason: reason@ }
            },
            VoiceClaimOutcome::Rejected { reason } => ClaimOutcomeModel::Rejected {
                reason: reason@,
            },
            VoiceClaimOutcome::Ambiguous { reason } => ClaimOutcomeModel::Ambiguous {
                reason: reason@,
            },
        }
    }
}

/// Whether an origin was enqueued now or had been before.
#[derive(Clone, Debug, PartialEq, Eq)]
pub enum VoiceEnqueueOutcome {
    Inserted(VoiceAdmissionReceipt),
    Existing(VoiceAdmissionReceipt),
}

/// What a [`VoiceEnqueueOutcome`] stands for.
pub enum EnqueueOutcomeModel {
    Inserted(ReceiptModel),
    Existing(ReceiptModel),
}

impl View for VoiceEnqueueOutcome {
    type V = EnqueueOutcomeModel;

    open spec fn view(&self) -> EnqueueOutcomeModel {
        match *self {
            VoiceEnqueueOutcome::Inserted(receipt) => EnqueueOutcomeModel::Inserted(receipt@),
            VoiceEnqueueOutcome::Existing(receipt) => EnqueueOutcomeModel::Existing(receipt@),
        }
    }
}

/// A row of the table of receipts, column by column.
#[derive(Debug, PartialEq, Eq)]
pub struct VoiceReceiptRow {
    pub thread_id: String,
    pub origin_id: String,
    pub native_session_id: Option<String>,
    pub voice_session_generation: i64,
    pub handoff_id: Option<String>,
    pub item_id: Option<String>,
    pub queued_item_id: String,
    pub client_id: String,
    pub payload_json: String,
    pub input_digest: Option<String>,
    pub admission_result: String,
    pub attempt_id: Option<String>,
    pub turn_id: Option<String>,
    pub reason: Option<String>,
}

/// What a [`VoiceReceiptRow`] stands for.
pub struct ReceiptRowModel {
    pub thread_id: Seq<char>,
    pub origin_id: Seq<char>,
    pub native_session_id: Option<Seq<char>>,
    pub voice_session_generation: i64,
    pub handoff_id: Option<Seq<char>>,
    pub item_id: Option<Seq<char>>,
    pub queued_item_id: Seq<char>,
    pub client_id: Seq<char>,
    pub payload_json: Seq<char>,
    pub input_digest: Option<Seq<char>>,
    pub admission_result: Seq<char>,
    pub attempt_id: Option<Seq<char>>,
    pub turn_id: Option<Seq<char>>,
    pub reason: Option<Seq<char>>,
}

impl View for VoiceReceiptRow {
    type V = ReceiptRowModel;

    open spec fn view(&self) -> ReceiptRowModel {
        ReceiptRowModel {
            thread_id: self.thread_id@,
            origin_id: self.origin_id@,
            native_session_id: opt_text(self.native_session_id),
            voice_session_generation: self.voice_session_generation,
            handoff_id: opt_text(self.handoff_id),
            item_id: opt_text(self.item_id),
            queued_item_id: self.queued_item_id@,
            client_id: self.client_id@,
            payload_json: self.payload_json@,
            input_digest: opt_text(self.input_digest),
            admission_result: self.admission_result@,
            attempt_id: opt_text(self.attempt_id),
            turn_id: opt_text(self.turn_id),
            reason: opt_text(self.reason),
        }
    }
}

impl Clone for VoiceReceiptRow {
    fn clone(&self) -> (copy: Self)
        ensures
            copy == *self,
    {
        VoiceReceiptRow {
            thread_id: self.thread_id.clone(),
            origin_id: self.origin_id.clone(),
            native_session_id: self.native_session_id.clone(),
            voice_session_generation: self.voice_session_generation,
            handoff_id: self.handoff_id.clone(),
            item_id: self.item_id.clone(),
            queued_item_id: self.queued_item_id.clone(),
            client_id: self.client_id.clone(),
            payload_json: self.payload_json.clone(),
            input_digest: self.input_digest.clone(),
            admission_result: self.admission_result.clone(),
            attempt_id: self.attempt_id.clone(),
            turn_id: self.turn_id.clone(),
            reason: self.reason.clone(),
        }
    }
}

/// A row of the table of queued items, column by column.
#[derive(Debug, PartialEq, Eq)]
pub struct QueuedItemRow {
    pub id: String,
    pub thread_id: String,
    pub payload_json: String,
    pub queue_order: i64,
    pub created_at_ms: i64,
    pub updated_at_ms: i64,
}

/// What a [`QueuedItemRow`] stands for.
pub struct ItemRowModel {
    pub id: Seq<char>,
    pub thread_id: Seq<char>,
    pub payload_json: Seq<char>,
    pub queue_order: i64,
    pub created_at_ms: i64,
    pub updated_at_ms: i64,
}

impl View for QueuedItemRow {
    type V = ItemRowModel;

    open spec fn view(&self) -> ItemRowModel {
        ItemRowModel {
            id: self.id@,
            thread_id: self.thread_id@,
            payload_json: self.payload_json@,
            queue_order: self.queue_order,
            created_at_ms: self.created_at_ms,
            updated_at_ms: self.updated_at_ms,
        }
    }
}

impl Clone for QueuedItemRow {
    fn clone(&self) -> (copy: Self)
        ensures
            copy == *self,
    {
        QueuedItemRow {
            id: self.id.clone(),
            thread_id: self.thread_id.clone(),
            payload_json: self.payload_json.clone(),
            queue_order: self.queue_order,
            created_at_ms: self.created_at_ms,
            updated_at_ms: self.updated_at_ms,
        }
    }
}

/// Why a row cannot be read.
#[derive(Clone, Copy, Debug, PartialEq, Eq, Structural)]
pub enum RowError {
    InvalidState,
    NoNativeSession,
    InvalidThreadId,
    GenerationOutOfRange,
}

/// What is said of a row that cannot be read.
pub open spec fn row_error_text(error: RowError) -> Seq<char> {
    match error {
        RowError::InvalidState => "invalid voice admission state"@,
        RowError::NoNativeSession => "voice receipt has no native session binding"@,
        RowError::InvalidThreadId => "invalid thread id"@,
        RowError::GenerationOutOfRange => "out of range integral type conversion attempted"@,
    }
}

impl RowError {
    pub fn message(self) -> (message: &'static str)
        ensures
            message@ == row_error_text(self),
    {
        match self {
            RowError::InvalidState => "invalid voice admission state",
            RowError::NoNativeSession => "voice receipt has no native session binding",
            RowError::InvalidThreadId => "invalid thread id",
            RowError::GenerationOutOfRange => "out of range integral type conversion attempted",
        }
    }
}

impl ReceiptRowModel {
    /// The receipt that a row holds. A row without a native session holds none: a session is
    /// never made up for it.
    pub open spec fn receipt(self) -> Result<ReceiptModel, RowError> {
        if result_of_text(self.admission_result) is None {
            Err(RowError::InvalidState)
        } else if self.native_session_id is None || blank(self.native_session_id->0) {
            Err(RowError::NoNativeSession)
        } else if parsed_uuid(self.thread_id) is None {
            Err(RowError::InvalidThreadId)
        } else if self.voice_session_generation < 0 {
            Err(RowError::GenerationOutOfRange)
        } else {
            Ok(
                ReceiptModel {
                    schema: "fdv.voice.admission.v1"@,
                    thread_id: ThreadId { uuid: parsed_uuid(self.thread_id)->0 },
                    native_session_id: self.native_session_id->0,
                    voice_session_generation: self.voice_session_generation as u64,
                    origin_id: self.origin_id,
                    handoff_id: self.handoff_id,
                    item_id: self.item_id,
                    queued_item_id: self.queued_item_id,
                    receipt_id: self.queued_item_id,
                    client_id: self.client_id,
                    input_digest: self.input_digest,
                    admission_result: result_of_text(self.admission_result)->0,
                    attempt_id: self.attempt_id,
                    turn_id: self.turn_id,
                    reason: self.reason,
                },
            )
        }
    }
}

/// A receipt says what its row says, column by column: it can be read exactly if the row has a
/// known state, a native session that is not blank, the identity of a thread and a generation that
/// is not negative, and where several of these are missing the first is named.
pub proof fn a_receipt_says_what_its_row_says(row: ReceiptRowModel)
    ensures
        ({
            let known_state = {
                ||| row.admission_result == "Queued"@
                ||| row.admission_result == "Claimed"@
                ||| row.admission_result == "Started"@
                ||| row.admission_result == "Ambiguous"@
                ||| row.admission_result == "Rejected"@
                ||| row.admission_result == "Cancelled"@
            };
            let present = row.native_session_id matches Some(id) && exists|i: int|
                0 <= i < id.len() && !is_white_space(#[trigger] id[i]);
            let thread = parsed_uuid(row.thread_id);
            &&& row.receipt() == Err::<ReceiptModel, _>(RowError::InvalidState) <==> !known_state
            &&& row.receipt() == Err::<ReceiptModel, _>(RowError::NoNativeSession) <==> known_state
                && !present
            &&& row.receipt() == Err::<ReceiptModel, _>(RowError::InvalidThreadId) <==> known_state
                && present && thread is None
            &&& row.receipt() == Err::<ReceiptModel, _>(RowError::GenerationOutOfRange)
                <==> known_state && present && thread is Some && row.voice_session_generation < 0
            &&& row.receipt() is Ok <==> known_state && present && thread is Some
                && row.voice_session_generation >= 0
            &&& row.receipt() matches Ok(receipt) ==> {
                &&& receipt.schema == "fdv.voice.admission.v1"@
                &&& thread == Some(receipt.thread_id.uuid)
                &&& row.native_session_id == Some(receipt.native_session_id)
                &&& receipt.voice_session_generation == row.voice_session_generation
                &&& receipt.origin_id == row.origin_id
                &&& receipt.handoff_id == row.handoff_id
                &&& receipt.item_id == row.item_id
                &&& receipt.queued_item_id == row.queued_item_id
                &&& receipt.receipt_id == row.queued_item_id
                &&& receipt.client_id == row.client_id
                &&& receipt.input_digest == row.input_digest
                &&& receipt.attempt_id == row.attempt_id
                &&& receipt.turn_id == row.turn_id
                &&& receipt.reason == row.reason
                &&& row.admission_result == match receipt.admission_result {
                    VoiceAdmissionResult::Queued => "Queued"@,
                    VoiceAdmissionResult::Claimed => "Claimed"@,
                    VoiceAdmissionResult::Started => "Started"@,
                    VoiceAdmissionResult::Ambiguous => "Ambiguous"@,
                    VoiceAdmissionResult::Rejected => "Rejected"@,
                    VoiceAdmissionResult::Cancelled => "Cancelled"@,
                }
            }
        }),
{
}

impl VoiceAdmissionReceipt {
    pub fn try_from_row(row: &VoiceReceiptRow) -> (receipt: Result<Self, RowError>)
        ensures
            match receipt {
                Ok(receipt) => row@.receipt() == Ok::<_, RowError>(receipt@),
                Err(error) => row@.receipt() == Err::<ReceiptModel, _>(error),
            },
            receipt matches Ok(receipt) ==> {
                &&& parsed_uuid(row.thread_id@) == Some(receipt.thread_id.uuid)
                &&& row.native_session_id matches Some(id) && receipt.native_session_id@ == id@
                &&& receipt.voice_session_generation == row.voice_session_generation
                &&& receipt.origin_id@ == row.origin_id@
                &&& opt_text(receipt.handoff_id) == opt_text(row.handoff_id)
                &&& opt_text(receipt.item_id) == opt_text(row.item_id)
                &&& receipt.queued_item_id@ == row.queued_item_id@
                &&& receipt.receipt_id@ == row.queued_item_id@
                &&& receipt.client_id@ == row.client_id@
                &&& opt_text(receipt.input_digest) == opt_text(row.input_digest)
                &&& result_text(receipt.admission_result) == row.admission_result@
                &&& opt_text(receipt.attempt_id) == opt_text(row.attempt_id)
                &&& opt_text(receipt.turn_id) == opt_text(row.turn_id)
                &&& opt_text(receipt.reason) == opt_text(row.reason)
            },
    {
        let admission_result = match VoiceAdmissionResult::from_text(
            row.admission_result.as_str(),
        ) {
            Some(result) => result,
            None => {
                return Err(RowError::InvalidState);
            },
        };
        let native_session_id = match &row.native_session_id {
            Some(id) => {
                if is_blank(id.as_str()) {
                    return Err(RowError::NoNativeSession);
                }
                id.clone()
            },
            None => {
                return Err(RowError::NoNativeSession);
            },
        };
        let thread_id = match ThreadId::from_string(row.thread_id.as_str()) {
            Ok(id) => id,
            Err(_) => {
                return Err(RowError::InvalidThreadId);
            },
        };
        if row.voice_session_generation < 0 {
            return Err(RowError::GenerationOutOfRange);
        }
        Ok(
            VoiceAdmissionReceipt {
                schema: "fdv.voice.admission.v1".to_owned(),
                thread_id,
                native_session_id,
                voice_session_generation: row.voice_session_generation as u64,
                origin_id: row.origin_id.clone(),
                handoff_id: row.handoff_id.clone(),
                item_id: row.item_id.clone(),
                queued_item_id: row.queued_item_id.clone(),
                receipt_id: row.queued_item_id.clone(),
                client_id: row.client_id.clone(),
                input_digest: row.input_digest.clone(),
                admission_result,
                attempt_id: row.attempt_id.clone(),
                turn_id: row.turn_id.clone(),
                reason: row.reason.clone(),
            },
        )
    }
}

/// One durable, ordered user submission of a thread.
#[derive(Clone, Debug, PartialEq, Eq)]
pub struct QueuedUserSubmissionRecord {
    pub id: String,
    pub thread_id: ThreadId,
    pub payload: String,
}

impl QueuedUserSubmissionRecord {
    pub fn try_from_row(row: &QueuedItemRow) -> (record: Result<Self, RowError>)
        ensures
            match record {
                Ok(record) => {
                    &&& parsed_uuid(row@.thread_id) == Some(record.thread_id.uuid)
                    &&& record.id@ == row@.id
                    &&& record.payload@ == row@.payload_json
                },
                Err(error) => {
                    &&& parsed_uuid(row@.thread_id) is None
                    &&& error == RowError::InvalidThreadId
                },
            },
            record matches Ok(record) ==> {
                &&& parsed_uuid(row.thread_id@) == Some(record.thread_id.uuid)
                &&& record.id@ == row.id@
                &&& record.payload@ == row.payload_json@
            },
    {
        match ThreadId::from_string(row.thread_id.as_str()) {
            Ok(thread_id) => Ok(
                QueuedUserSubmissionRecord {
                    id: row.id.clone(),
                    thread_id,
                    payload: row.payload_json.clone(),
                },
            ),
            Err(_) => Err(RowError::InvalidThreadId),
        }
    }
}

} // verus!
