//! Models lose nothing: values with the same model hold the same, field by field.

use vstd::prelude::*;
use crate::origin::{VoiceAdmissionInput, VoiceAdmissionScope};
use crate::queue_failure::{StoreErrorModel, ThreadStoreError};
use crate::receipt::{
    ClaimOutcomeModel, EnqueueOutcomeModel, QueuedItemRow, ReceiptModel, VoiceAdmissionReceipt,
    VoiceClaimOutcome, VoiceEnqueueOutcome, VoiceQueueOrigin, VoiceReceiptRow,
};
use crate::routing::VoiceTurnBinding;
use crate::session::{
    delivery_model, EventModel, NativeVoiceSession, Phase, PhaseModel, SessionStep, StepModel,
    VoiceNativeSessionEvent, VoiceNativeSessionSignal,
};
use crate::store::{client_result, enqueue_result, lookup_result, receipt_result, store_model};
use crate::store_model::{QueueErrorModel, TableWrite, VoiceQueueError, WriteModel};
use crate::text::opt_text;
use crate::voice_control::admission::{
    fence_model, AdmissionPermit, AdmissionState, PermitModel, StoppingFence,
};
use crate::voice_control::lease::{
    opt_lease_id, LeaseStateModel, VoiceLease, VoiceLeaseId, VoiceLeaseState,
};

verus! {

/// An optional text is there in its model exactly if it is there, with its characters.
pub proof fn an_optional_text_is_modelled_by_its_characters(text: String, id: VoiceLeaseId)
    ensures
        opt_text(None) is None,
        opt_text(Some(text)) == Some(text@),
        opt_lease_id(None) is None,
        opt_lease_id(Some(id)) == Some(id.0@),
        id@ == id.0@,
{
}

pub proof fn an_admission_is_modelled_field_by_field(
    scope: VoiceAdmissionScope,
    input: VoiceAdmissionInput,
)
    ensures
        scope@.voice_session_generation == scope.voice_session_generation,
        scope@.native_session_id == scope.native_session_id@,
        input@.thread_id == input.thread_id,
        input@.scope.voice_session_generation == input.scope.voice_session_generation,
        input@.scope.native_session_id == input.scope.native_session_id@,
        input@.origin_id == input.origin_id@,
        input@.handoff_id == opt_text(input.handoff_id),
        input@.item_id == opt_text(input.item_id),
        input@.text == input.text@,
{
}

pub proof fn a_queue_origin_is_modelled_field_by_field(origin: VoiceQueueOrigin)
    ensures
        origin@.native_session_id == origin.native_session_id@,
        origin@.voice_session_generation == origin.voice_session_generation,
        origin@.origin_id == origin.origin_id@,
        origin@.handoff_id == opt_text(origin.handoff_id),
        origin@.item_id == opt_text(origin.item_id),
{
}

pub proof fn a_receipt_is_modelled_field_by_field(receipt: VoiceAdmissionReceipt)
    ensures
        receipt@.schema == receipt.schema@,
        receipt@.thread_id == receipt.thread_id,
        receipt@.native_session_id == receipt.native_session_id@,
        receipt@.voice_session_generation == receipt.voice_session_generation,
        receipt@.origin_id == receipt.origin_id@,
        receipt@.handoff_id == opt_text(receipt.handoff_id),
        receipt@.item_id == opt_text(receipt.item_id),
        receipt@.queued_item_id == receipt.queued_item_id@,
        receipt@.receipt_id == receipt.receipt_id@,
        receipt@.client_id == receipt.client_id@,
        receipt@.input_digest == opt_text(receipt.input_digest),
        receipt@.admission_result == receipt.admission_result,
        receipt@.attempt_id == opt_text(receipt.attempt_id),
        receipt@.turn_id == opt_text(receipt.turn_id),
        receipt@.reason == opt_text(receipt.reason),
{
}

pub proof fn rows_are_modelled_column_by_column(receipt: VoiceReceiptRow, item: QueuedItemRow)
    ensures
        receipt@.thread_id == receipt.thread_id@,
        receipt@.origin_id == receipt.origin_id@,
        receipt@.native_session_id == opt_text(receipt.native_session_id),
        receipt@.voice_session_generation == receipt.voice_session_generation,
        receipt@.handoff_id == opt_text(receipt.handoff_id),
        receipt@.item_id == opt_text(receipt.item_id),
        receipt@.queued_item_id == receipt.queued_item_id@,
        receipt@.client_id == receipt.client_id@,
        receipt@.payload_json == receipt.payload_json@,
        receipt@.input_digest == opt_text(receipt.input_digest),
        receipt@.admission_result == receipt.admission_result@,
        receipt@.attempt_id == opt_text(receipt.attempt_id),
        receipt@.turn_id == opt_text(receipt.turn_id),
        receipt@.reason == opt_text(receipt.reason),
        item@.id == item.id@,
        item@.thread_id == item.thread_id@,
        item@.payload_json == item.payload_json@,
        item@.queue_order == item.queue_order,
        item@.created_at_ms == item.created_at_ms,
        item@.updated_at_ms == item.updated_at_ms,
{
}

/// The model of the tables holds the model of each row, in its place.
pub proof fn tables_are_modelled_row_by_row(
    limit: usize,
    receipts: Seq<VoiceReceiptRow>,
    items: Seq<QueuedItemRow>,
    i: int,
)
    ensures
        store_model(limit, receipts, items).max_queue_items == limit,
        store_model(limit, receipts, items).receipts.len() == receipts.len(),
        store_model(limit, receipts, items).items.len() == items.len(),
        0 <= i < receipts.len() ==> store_model(limit, receipts, items).receipts[i] == receipts[i]@,
        0 <= i < items.len() ==> store_model(limit, receipts, items).items[i] == items[i]@,
{
}

pub proof fn an_outcome_of_a_claim_is_modelled_by_its_variant(text: String)
    ensures
        (VoiceClaimOutcome::Started { turn_id: text })@ == (ClaimOutcomeModel::Started {
            turn_id: text@,
        }),
        (VoiceClaimOutcome::RetryableRejection { reason: text })@ == (
        ClaimOutcomeModel::RetryableRejection { reason: text@ }),
        (VoiceClaimOutcome::Rejected { reason: text })@ == (ClaimOutcomeModel::Rejected {
            reason: text@,
        }),
        (VoiceClaimOutcome::Ambiguous { reason: text })@ == (ClaimOutcomeModel::Ambiguous {
            reason: text@,
        }),
{
}

/// The answers of the store are modelled by what they hold, errors included.
pub proof fn answers_are_modelled_by_what_they_hold(
    receipt: VoiceAdmissionReceipt,
    outcome: VoiceEnqueueOutcome,
    error: VoiceQueueError,
    client: Option<String>,
    message: String,
)
    ensures
        VoiceEnqueueOutcome::Inserted(receipt)@ == EnqueueOutcomeModel::Inserted(receipt@),
        VoiceEnqueueOutcome::Existing(receipt)@ == EnqueueOutcomeModel::Existing(receipt@),
        receipt_result(Ok(receipt)) == Ok::<_, QueueErrorModel>(receipt@),
        receipt_result(Err(error)) == Err::<ReceiptModel, _>(error@),
        lookup_result(Ok(Some(receipt))) == Ok::<_, QueueErrorModel>(Some(receipt@)),
        lookup_result(Ok(None)) == Ok::<Option<ReceiptModel>, QueueErrorModel>(
            None,
        ),
        lookup_result(Err(error)) == Err::<Option<ReceiptModel>, _>(error@),
        enqueue_result(Ok(outcome)) == Ok::<_, QueueErrorModel>(outcome@),
        enqueue_result(Err(error)) == Err::<EnqueueOutcomeModel, _>(error@),
        client_result(Ok(client)) == Ok::<_, Seq<char>>(opt_text(client)),
        client_result(Err(message)) == Err::<Option<Seq<char>>, _>(message@),
        match error {
            VoiceQueueError::Refused(refusal) => error@ == QueueErrorModel::Refused(refusal),
            VoiceQueueError::InvalidPayload { message } => error@
                == QueueErrorModel::InvalidPayload(message@),
            VoiceQueueError::Row(row) => error@ == QueueErrorModel::Row(row),
        },
{
}

pub proof fn a_write_is_modelled_by_its_rows(write: TableWrite)
    ensures
        match write {
            TableWrite::InsertReceipt(row) => write@ == WriteModel::InsertReceipt(row@),
            TableWrite::UpdateReceipt(row) => write@ == WriteModel::UpdateReceipt(row@),
            TableWrite::InsertItem(row) => write@ == WriteModel::InsertItem(row@),
            TableWrite::DeleteItem { thread_id, id } => write@ == (WriteModel::DeleteItem {
                thread_id: thread_id@,
                id: id@,
            }),
        },
{
}

pub proof fn a_storage_failure_is_modelled_by_its_message(message: String)
    ensures
        (ThreadStoreError::InvalidRequest { message })@ == StoreErrorModel::InvalidRequest(
            message@,
        ),
        (ThreadStoreError::Internal { message })@ == StoreErrorModel::Internal(message@),
{
}

pub proof fn a_binding_is_modelled_field_by_field(binding: VoiceTurnBinding)
    ensures
        binding@.native_session_id == binding.native_session_id@,
        binding@.voice_session_generation == binding.voice_session_generation,
        binding@.turn_id == binding.turn_id@,
        binding@.origin_id == binding.origin_id@,
        binding@.client_id == binding.client_id@,
        binding@.handoff_id == binding.handoff_id@,
{
}

/// A session, its phase, its signals and its steps are modelled by what they hold.
pub proof fn a_session_is_modelled_by_what_it_holds(
    session: NativeVoiceSession,
    signal: VoiceNativeSessionSignal,
    step: SessionStep,
    delivery: Result<(), String>,
)
    ensures
        session@.thread_id == session.start.thread_id,
        session@.start_id == session.start.start_id@,
        session@.generation == session.generation,
        session@.phase == session.phase@,
        session@.routes == session.routes@,
        match session.phase {
            Phase::Starting => session.phase@ == PhaseModel::Starting,
            Phase::Sealing(scope) => session.phase@ == PhaseModel::Sealing(scope@),
            Phase::Ready(scope) => session.phase@ == PhaseModel::Ready(scope@),
            Phase::Closed { native_session_id, delivery } => {
                &&& session.phase@ is Closed
                &&& session.phase@->native_session_id == opt_text(native_session_id)
                &&& delivery is None <==> session.phase@->delivery is None
                &&& delivery matches Some(outcome) ==> session.phase@->delivery == Some(
                    delivery_model(outcome),
                )
            },
        },
        signal@.thread_id == signal.thread_id,
        signal@.start_id == signal.start_id@,
        signal@.voice_generation == signal.voice_generation,
        signal@.event == signal.event@,
        match signal.event {
            VoiceNativeSessionEvent::Starting => signal.event@ == EventModel::Starting,
            VoiceNativeSessionEvent::Ready { native_session_id } => signal.event@
                == EventModel::Ready(native_session_id@),
            VoiceNativeSessionEvent::Closed { native_session_id } => signal.event@
                == EventModel::Closed(opt_text(native_session_id)),
        },
        match step {
            SessionStep::Settled(outcome) => step@ == StepModel::Settled(delivery_model(outcome)),
            SessionStep::Deliver(signal) => step@ == StepModel::Deliver(signal@),
        },
        match delivery {
            Ok(_) => delivery_model(delivery) == Ok::<(), Seq<char>>(()),
            Err(message) => delivery_model(delivery) == Err::<(), _>(message@),
        },
{
}

/// The lease and the fences are modelled by what they hold.
pub proof fn admission_is_modelled_by_what_it_holds(
    state: AdmissionState,
    lease: VoiceLease,
    permit: AdmissionPermit,
    fence: StoppingFence,
)
    ensures
        state@.lease == state.lease@,
        state@.idle_epoch == state.idle_epoch,
        state@.stopping == fence_model(state.stopping),
        state@.stopping_generation == state.stopping_generation,
        state@.fencing_exhausted == state.fencing_exhausted,
        state@.next_effect_operation_id == state.next_effect_operation_id,
        state@.effects == state.effect_operations@,
        fence_model(None) is None,
        fence_model(Some(fence)) matches Some(model) && model.turn_id == fence.turn_id@
            && model.generation == fence.generation,
        lease@.state == lease.state@,
        lease@.generation == lease.generation,
        lease@.exhausted == lease.generation_exhausted,
        match lease.state {
            VoiceLeaseState::Free => lease.state@ == LeaseStateModel::Free,
            VoiceLeaseState::Acquiring { lease_id } => lease.state@ == LeaseStateModel::Acquiring(
                lease_id.0@,
            ),
            VoiceLeaseState::Active { lease_id } => lease.state@ == LeaseStateModel::Active(
                lease_id.0@,
            ),
            VoiceLeaseState::Closing { lease_id } => lease.state@ == LeaseStateModel::Closing(
                lease_id.0@,
            ),
            VoiceLeaseState::RecoveryRequired { lease_id } => lease.state@
                == LeaseStateModel::RecoveryRequired(opt_lease_id(lease_id)),
        },
        match permit {
            AdmissionPermit::UpstreamBaseline => permit@ == PermitModel::UpstreamBaseline,
            AdmissionPermit::Voice { lease_id } => permit@ == PermitModel::Voice(lease_id.0@),
            AdmissionPermit::NonHumanInput => permit@ == PermitModel::NonHumanInput,
        },
{
}

} // verus!
