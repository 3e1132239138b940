//! What each request of the durable queue comes to, read off the rows of the tables alone.

use vstd::prelude::*;
use crate::ids::{parsed_uuid, ThreadId};
use crate::receipt::{
    a_stored_result_is_read_back, result_of_text, row_error_text, ClaimOutcomeModel,
    EnqueueOutcomeModel, ItemRowModel, QueueOriginModel, ReceiptModel, ReceiptRowModel, RowError,
    VoiceAdmissionResult,
};
use crate::store_model::{
    error_text, first_visible, last_order, queued, refusal_text, sql_present, QueueErrorModel,
    Refusal, StoreModel, TableWrite, WriteModel,
};
use crate::text::is_white_space;

verus! {

/// Counting the items of a thread one by one gives the size of the thread's part of the table.
proof fn lemma_queued(items: Seq<ItemRowModel>, thread: Seq<char>)
    ensures
        queued(items, thread) == items.filter(|row: ItemRowModel| row.thread_id == thread).len(),
    decreases items.len(),
{
    reveal(Seq::filter);
    if items.len() > 0 {
        lemma_queued(items.drop_last(), thread);
    }
}

/// The highest order is that of an item of the thread, and none of the thread is higher.
proof fn lemma_last_order(items: Seq<ItemRowModel>, thread: Seq<char>)
    ensures
        match last_order(items, thread) {
            Some(order) => {
                &&& exists|k: int|
                    0 <= k < items.len() && #[trigger] items[k].thread_id == thread
                        && items[k].queue_order == order
                &&& forall|k: int|
                    0 <= k < items.len() && #[trigger] items[k].thread_id == thread
                        ==> items[k].queue_order <= order
            },
            None => forall|k: int|
                0 <= k < items.len() ==> #[trigger] items[k].thread_id != thread,
        },
    decreases items.len(),
{
    if items.len() > 0 {
        let rest = items.drop_last();
        lemma_last_order(rest, thread);
        let last = items.len() - 1;
        assert forall|k: int| 0 <= k < last implies #[trigger] items[k] == rest[k] by {}
        if let Some(order) = last_order(rest, thread) {
            let k = choose|k: int|
                0 <= k < rest.len() && #[trigger] rest[k].thread_id == thread
                    && rest[k].queue_order == order;
            assert(items[k].thread_id == thread && items[k].queue_order == order);
        }
        assert(items[last] == items.last());
    }
}

/// Room is decided by the queued items alone. A valid request for an origin that the thread holds
/// no receipt of is admitted whenever the thread queues fewer items than the limit, whatever
/// receipts it holds: it gets a receipt that repeats the request, and an item behind every other
/// item of the thread.
pub proof fn a_new_origin_is_admitted_wherever_the_items_leave_room(
    store: StoreModel,
    thread: Seq<char>,
    payload: Seq<char>,
    origin: QueueOriginModel,
    id: Seq<char>,
    now: i64,
)
    requires
        parsed_uuid(thread) is Some,
        origin.origin_id.len() > 0,
        exists|i: int|
            0 <= i < origin.native_session_id.len() && !is_white_space(
                #[trigger] origin.native_session_id[i],
            ),
        0 < origin.voice_session_generation <= i64::MAX,
        forall|k: int|
            0 <= k < store.receipts.len() ==> !(#[trigger] store.receipts[k].thread_id == thread
                && store.receipts[k].origin_id == origin.origin_id),
        store.max_queue_items <= i64::MAX,
        store.items.filter(|row: ItemRowModel| row.thread_id == thread).len()
            < store.max_queue_items,
        forall|k: int|
            0 <= k < store.items.len() && #[trigger] store.items[k].thread_id == thread
                ==> store.items[k].queue_order < i64::MAX,
        forall|k: int| 0 <= k < store.items.len() ==> #[trigger] store.items[k].id != id,
        forall|k: int|
            0 <= k < store.receipts.len() ==> #[trigger] store.receipts[k].queued_item_id != id,
    ensures
        ({
            let (next, outcome) = store.enqueue(
                thread,
                payload,
                origin,
                Ok(Some(origin.origin_id)),
                id,
                now,
            );
            let order = next.items.last().queue_order;
            &&& outcome == Ok::<_, QueueErrorModel>(
                EnqueueOutcomeModel::Inserted(
                    ReceiptModel {
                        schema: "fdv.voice.admission.v1"@,
                        thread_id: ThreadId { uuid: parsed_uuid(thread)->0 },
                        native_session_id: origin.native_session_id,
                        voice_session_generation: origin.voice_session_generation,
                        origin_id: origin.origin_id,
                        handoff_id: origin.handoff_id,
                        item_id: origin.item_id,
                        queued_item_id: id,
                        receipt_id: id,
                        client_id: origin.origin_id,
                        input_digest: None,
                        admission_result: VoiceAdmissionResult::Queued,
                        attempt_id: None,
                        turn_id: None,
                        reason: None,
                    },
                ),
            )
            &&& next.max_queue_items == store.max_queue_items
            &&& next.receipts == store.receipts.push(
                ReceiptRowModel {
                    thread_id: thread,
                    origin_id: origin.origin_id,
                    native_session_id: Some(origin.native_session_id),
                    voice_session_generation: origin.voice_session_generation as i64,
                    handoff_id: origin.handoff_id,
                    item_id: origin.item_id,
                    queued_item_id: id,
                    client_id: origin.origin_id,
                    payload_json: payload,
                    input_digest: None,
                    admission_result: "Queued"@,
                    attempt_id: None,
                    turn_id: None,
                    reason: None,
                },
            )
            &&& next.items == store.items.push(
                ItemRowModel {
                    id,
                    thread_id: thread,
                    payload_json: payload,
                    queue_order: order,
                    created_at_ms: now,
                    updated_at_ms: now,
                },
            )
            &&& forall|k: int|
                0 <= k < store.items.len() && #[trigger] store.items[k].thread_id == thread
                    ==> store.items[k].queue_order < order
            &&& {
                ||| exists|k: int|
                    0 <= k < store.items.len() && #[trigger] store.items[k].thread_id == thread
                        && order == store.items[k].queue_order + 1
                ||| order == 0 && forall|k: int|
                    0 <= k < store.items.len() ==> #[trigger] store.items[k].thread_id != thread
            }
        }),
{
    a_stored_result_is_read_back(VoiceAdmissionResult::Queued, VoiceAdmissionResult::Queued);
    lemma_queued(store.items, thread);
    lemma_last_order(store.items, thread);
    let (next, outcome) = store.enqueue(
        thread,
        payload,
        origin,
        Ok(Some(origin.origin_id)),
        id,
        now,
    );
    assert(store.of_origin(thread, origin.origin_id) is None);
    assert(!store.uses(id));
    if last_order(store.items, thread) is Some {
        let k = choose|k: int|
            0 <= k < store.items.len() && #[trigger] store.items[k].thread_id == thread
                && store.items[k].queue_order == last_order(store.items, thread)->0;
        assert(next.items.last().queue_order == store.items[k].queue_order + 1);
    }
}

/// Every refusal to enqueue says what is the case, of the request or of the tables: in particular
/// a queue is called full only if its thread has that many items in the table of items. What is
/// wrong with a request is told in a fixed order.
pub proof fn a_refusal_to_enqueue_is_justified(
    store: StoreModel,
    thread: Seq<char>,
    payload: Seq<char>,
    origin: QueueOriginModel,
    client: Result<Option<Seq<char>>, Seq<char>>,
    id: Seq<char>,
    now: i64,
)
    requires
        parsed_uuid(thread) is Some,
    ensures
        ({
            let (next, outcome) = store.enqueue(thread, payload, origin, client, id, now);
            let present = exists|i: int|
                0 <= i < origin.native_session_id.len() && !is_white_space(
                    #[trigger] origin.native_session_id[i],
                );
            let known = exists|k: int|
                0 <= k < store.receipts.len() && #[trigger] store.receipts[k].thread_id == thread
                    && store.receipts[k].origin_id == origin.origin_id;
            let error = outcome->Err_0;
            &&& outcome is Err ==> next == store
            &&& outcome is Err && error == QueueErrorModel::Refused(Refusal::EmptyOrigin)
                <==> origin.origin_id.len() == 0
            &&& outcome is Err && error == QueueErrorModel::Refused(Refusal::EmptyNativeSession)
                <==> origin.origin_id.len() > 0 && !present
            &&& outcome is Err && error == QueueErrorModel::Refused(Refusal::InvalidGeneration)
                <==> origin.origin_id.len() > 0 && present && origin.voice_session_generation == 0
            &&& outcome is Err && error is InvalidPayload <==> origin.origin_id.len() > 0 && present
                && origin.voice_session_generation > 0 && client is Err
            &&& outcome is Err && error is InvalidPayload ==> client == Err::<
                Option<Seq<char>>,
                _,
            >(error->InvalidPayload_0)
            &&& outcome is Err && error == QueueErrorModel::Refused(Refusal::ClientMismatch)
                <==> origin.origin_id.len() > 0 && present && origin.voice_session_generation > 0
                && client is Ok && client->Ok_0 != Some(origin.origin_id)
            &&& outcome is Err && error == QueueErrorModel::Refused(Refusal::IntegerOutOfRange)
                ==> origin.voice_session_generation > i64::MAX || (!known && store.max_queue_items
                > i64::MAX)
            &&& outcome is Err && error == QueueErrorModel::Refused(Refusal::QueueFull) ==> {
                &&& !known
                &&& store.items.filter(|row: ItemRowModel| row.thread_id == thread).len()
                    >= store.max_queue_items
            }
            &&& outcome is Err && error == QueueErrorModel::Refused(Refusal::OrderExhausted) ==> {
                &&& !known
                &&& exists|k: int|
                    0 <= k < store.items.len() && #[trigger] store.items[k].thread_id == thread
                        && store.items[k].queue_order == i64::MAX
            }
            &&& outcome is Err && error == QueueErrorModel::Refused(Refusal::ItemIdInUse) ==> {
                &&& !known
                &&& {
                    ||| exists|k: int|
                        0 <= k < store.items.len() && #[trigger] store.items[k].id == id
                    ||| exists|k: int|
                        0 <= k < store.receipts.len() && #[trigger] store.receipts[k].queued_item_id
                            == id
                }
            }
            &&& outcome is Err && error == QueueErrorModel::Refused(Refusal::OriginConflict)
                ==> known
            &&& outcome is Err && error is Row ==> known
            &&& outcome is Err && error is Refused ==> {
                let refusal = error->Refused_0;
                ||| refusal is EmptyOrigin
                ||| refusal is EmptyNativeSession
                ||| refusal is InvalidGeneration
                ||| refusal is ClientMismatch
                ||| refusal is IntegerOutOfRange
                ||| refusal is QueueFull
                ||| refusal is OrderExhausted
                ||| refusal is ItemIdInUse
                ||| refusal is OriginConflict
            }
            &&& outcome matches Ok(EnqueueOutcomeModel::Existing(_)) ==> known && next == store
            &&& outcome matches Ok(EnqueueOutcomeModel::Inserted(_)) ==> {
                &&& !known
                &&& store.items.filter(|row: ItemRowModel| row.thread_id == thread).len()
                    < store.max_queue_items
                &&& forall|k: int|
                    0 <= k < store.items.len() && #[trigger] store.items[k].thread_id == thread
                        ==> store.items[k].queue_order < i64::MAX
                &&& forall|k: int| 0 <= k < store.items.len() ==> #[trigger] store.items[k].id != id
                &&& forall|k: int|
                    0 <= k < store.receipts.len() ==> #[trigger] store.receipts[k].queued_item_id
                        != id
            }
            &&& outcome is Ok ==> {
                &&& origin.origin_id.len() > 0
                &&& present
                &&& 0 < origin.voice_session_generation <= i64::MAX
                &&& client == Ok::<_, Seq<char>>(Some(origin.origin_id))
            }
        }),
{
    a_stored_result_is_read_back(VoiceAdmissionResult::Queued, VoiceAdmissionResult::Queued);
    lemma_queued(store.items, thread);
    lemma_last_order(store.items, thread);
    let known = store.of_origin(thread, origin.origin_id);
    if known is Some {
        assert(store.holds_origin(thread, origin.origin_id, known->0));
        assert(store.receipts[known->0].thread_id == thread);
    } else {
        assert forall|k: int| 0 <= k < store.receipts.len() implies !(#[trigger] store.receipts[k]
            .thread_id == thread && store.receipts[k].origin_id == origin.origin_id) by {
            assert(!store.holds_origin(thread, origin.origin_id, k));
        }
    }
    if exists|i: int| store.holds_item(id, i) {
        let i = choose|i: int| store.holds_item(id, i);
        assert(store.items[i].id == id);
    }
    if !store.uses(id) {
        assert forall|k: int| 0 <= k < store.items.len() implies #[trigger] store.items[k].id
            != id by {
            assert(!store.holds_item(id, k));
        }
    }
}

/// An origin that the thread holds a receipt of is answered from that row and nothing else: with
/// the receipt, if the request repeats what was enqueued, and with a refusal if it does not. The
/// store is left alone either way.
pub proof fn a_known_origin_is_answered_from_its_row(
    store: StoreModel,
    i: int,
    payload: Seq<char>,
    origin: QueueOriginModel,
    id: Seq<char>,
    now: i64,
)
    requires
        store.wf(),
        0 <= i < store.receipts.len(),
        store.receipts[i].origin_id == origin.origin_id,
        origin.origin_id.len() > 0,
        exists|k: int|
            0 <= k < origin.native_session_id.len() && !is_white_space(
                #[trigger] origin.native_session_id[k],
            ),
        0 < origin.voice_session_generation <= i64::MAX,
    ensures
        ({
            let row = store.receipts[i];
            let repeated = {
                &&& row.payload_json == payload
                &&& row.native_session_id == Some(origin.native_session_id)
                &&& row.voice_session_generation == origin.voice_session_generation
                &&& row.handoff_id == origin.handoff_id
                &&& row.item_id == origin.item_id
            };
            store.enqueue(
                row.thread_id,
                payload,
                origin,
                Ok(Some(origin.origin_id)),
                id,
                now,
            ) == (
                store,
                match row.receipt() {
                    Ok(receipt) => if repeated {
                        Ok::<_, QueueErrorModel>(EnqueueOutcomeModel::Existing(receipt))
                    } else {
                        Err(QueueErrorModel::Refused(Refusal::OriginConflict))
                    },
                    Err(error) => Err(QueueErrorModel::Row(error)),
                },
            )
        }),
{
    assert(store.holds_origin(store.receipts[i].thread_id, origin.origin_id, i));
    store.lemma_of_origin(store.receipts[i].thread_id, origin.origin_id, i);
}

/// Whether SQLite counts a text as more than spaces: `trim` takes the spaces at its ends, and
/// `length` counts what is left up to the first NUL.
proof fn lemma_present(id: Seq<char>)
    ensures
        sql_present(id) <==> exists|i: int|
            {
                &&& 0 <= i < id.len()
                &&& #[trigger] id[i] != ' '
                &&& id[i] != '\0'
                &&& forall|j: int| 0 <= j < i ==> id[j] == ' '
            },
{
    if sql_present(id) {
        let i = choose|i: int| first_visible(id, i);
        assert(id[i] != ' ');
    }
    if exists|i: int|
        {
            &&& 0 <= i < id.len()
            &&& #[trigger] id[i] != ' '
            &&& id[i] != '\0'
            &&& forall|j: int| 0 <= j < i ==> id[j] == ' '
        } {
        let i = choose|i: int|
            {
                &&& 0 <= i < id.len()
                &&& #[trigger] id[i] != ' '
                &&& id[i] != '\0'
                &&& forall|j: int| 0 <= j < i ==> id[j] == ' '
            };
        assert(first_visible(id, i));
    }
}

/// A claim is granted exactly where it should be: the receipt is queued under a session that SQLite
/// does not count as empty, its item is in the queue unchanged, and no receipt of the thread is
/// claimed or ambiguous. Other receipts of the thread, started, rejected, cancelled or queued, do
/// not matter. A granted claim sets the state and the attempt, and leaves everything else but the
/// reason alone.
pub proof fn a_claim_is_granted_exactly_where_nothing_is_open(
    store: StoreModel,
    i: int,
    attempt: Seq<char>,
)
    requires
        store.wf(),
        0 <= i < store.receipts.len(),
    ensures
        ({
            let row = store.receipts[i];
            let (next, outcome) = store.claim(row.thread_id, row.queued_item_id, attempt);
            let granted = {
                &&& attempt.len() > 0
                &&& row.admission_result == "Queued"@
                &&& row.native_session_id matches Some(id) && exists|k: int|
                    {
                        &&& 0 <= k < id.len()
                        &&& #[trigger] id[k] != ' '
                        &&& id[k] != '\0'
                        &&& forall|j: int| 0 <= j < k ==> id[j] == ' '
                    }
                &&& exists|k: int|
                    {
                        &&& 0 <= k < store.items.len()
                        &&& #[trigger] store.items[k].id == row.queued_item_id
                        &&& store.items[k].thread_id == row.thread_id
                        &&& store.items[k].payload_json == row.payload_json
                    }
                &&& forall|k: int|
                    0 <= k < store.receipts.len() && #[trigger] store.receipts[k].thread_id
                        == row.thread_id ==> store.receipts[k].admission_result != "Claimed"@
                        && store.receipts[k].admission_result != "Ambiguous"@
            };
            let claimed = ReceiptRowModel {
                admission_result: "Claimed"@,
                attempt_id: Some(attempt),
                reason: None,
                ..row
            };
            &&& granted ==> {
                &&& next.receipts == store.receipts.update(i, claimed)
                &&& next.items == store.items
                &&& next.max_queue_items == store.max_queue_items
                &&& row.receipt() matches Ok(receipt) ==> outcome == Ok::<_, QueueErrorModel>(
                    Some(
                        ReceiptModel {
                            admission_result: VoiceAdmissionResult::Claimed,
                            attempt_id: Some(attempt),
                            reason: None,
                            ..receipt
                        },
                    ),
                )
                &&& row.receipt() matches Err(error) ==> outcome == Err::<Option<ReceiptModel>, _>(
                    QueueErrorModel::Row(error),
                )
            }
            &&& !granted ==> next == store
            &&& !granted && attempt.len() > 0 ==> outcome == Ok::<
                Option<ReceiptModel>,
                QueueErrorModel,
            >(None)
            &&& attempt.len() == 0 ==> outcome == Err::<Option<ReceiptModel>, _>(
                QueueErrorModel::Refused(Refusal::EmptyAttempt),
            )
        }),
{
    let row = store.receipts[i];
    assert(store.holds_receipt(row.thread_id, row.queued_item_id, i));
    store.lemma_of_item(row.thread_id, row.queued_item_id, i);
    a_stored_result_is_read_back(VoiceAdmissionResult::Queued, VoiceAdmissionResult::Claimed);
    a_stored_result_is_read_back(VoiceAdmissionResult::Claimed, VoiceAdmissionResult::Claimed);
    if let Some(id) = row.native_session_id {
        lemma_present(id);
    }
    if exists|k: int| store.backs(row, k) {
        let k = choose|k: int| store.backs(row, k);
        assert(store.items[k].id == row.queued_item_id);
    }
    assert forall|k: int|
        {
            &&& 0 <= k < store.items.len()
            &&& #[trigger] store.items[k].id == row.queued_item_id
            &&& store.items[k].thread_id == row.thread_id
            &&& store.items[k].payload_json == row.payload_json
        } implies store.backs(row, k) by {}
    assert forall|k: int|
        0 <= k < store.receipts.len() && #[trigger] store.receipts[k].thread_id == row.thread_id
            && (store.receipts[k].admission_result == "Claimed"@
            || store.receipts[k].admission_result == "Ambiguous"@) implies store.blocks(
        row.thread_id,
        k,
    ) by {}
    assert forall|k: int| #[trigger] store.blocks(row.thread_id, k) implies 0 <= k
        < store.receipts.len() && store.receipts[k].thread_id == row.thread_id by {}
}

/// Of an item that the thread holds no receipt of there is nothing to claim or to report.
pub proof fn what_has_no_receipt_is_not_claimed(
    store: StoreModel,
    thread: Seq<char>,
    item: Seq<char>,
    attempt: Seq<char>,
    outcome: ClaimOutcomeModel,
)
    requires
        forall|k: int|
            0 <= k < store.receipts.len() ==> !(#[trigger] store.receipts[k].thread_id == thread
                && store.receipts[k].queued_item_id == item),
        attempt.len() > 0,
        outcome matches ClaimOutcomeModel::Started { turn_id } ==> turn_id.len() > 0,
    ensures
        store.claim(thread, item, attempt) == (
            store,
            Ok::<Option<ReceiptModel>, QueueErrorModel>(None),
        ),
        store.finish(thread, item, attempt, outcome) == (
            store,
            Err::<ReceiptModel, _>(QueueErrorModel::Refused(Refusal::ClaimMismatch)),
        ),
        store.receipt_of(store.of_item(thread, item)) == Ok::<
            Option<ReceiptModel>,
            QueueErrorModel,
        >(None),
{
    assert forall|k: int| !store.holds_receipt(thread, item, k) by {
        if store.holds_receipt(thread, item, k) {
            assert(store.receipts[k].thread_id == thread);
        }
    }
}

/// An item is taken off the queue for its thread and by its identity, and no other with it.
proof fn lemma_without_item(store: StoreModel, thread: Seq<char>, id: Seq<char>)
    requires
        store.wf(),
    ensures
        store.without_item(thread, id).receipts == store.receipts,
        store.without_item(thread, id).max_queue_items == store.max_queue_items,
        store.without_item(thread, id).items == store.items.filter(
            |row: ItemRowModel| !(row.thread_id == thread && row.id == id),
        ),
{
    let keep = |row: ItemRowModel| !(row.thread_id == thread && row.id == id);
    if exists|i: int| store.holds_item(id, i) && store.items[i].thread_id == thread {
        let at = choose|i: int| store.holds_item(id, i) && store.items[i].thread_id == thread;
        assert forall|k: int| 0 <= k < store.items.len() implies #[trigger] keep(store.items[k])
            == (k != at) by {
            if k != at && !keep(store.items[k]) {
                assert(store.items[k].id == store.items[at].id);
            }
        }
        lemma_filter_all_but_one(store.items, keep, at);
    } else {
        assert forall|k: int| 0 <= k < store.items.len() implies #[trigger] keep(
            store.items[k],
        ) by {
            assert(!(store.holds_item(id, k) && store.items[k].thread_id == thread));
        }
        lemma_filter_all(store.items, keep);
    }
}

proof fn lemma_filter_all(items: Seq<ItemRowModel>, keep: spec_fn(ItemRowModel) -> bool)
    requires
        forall|k: int| 0 <= k < items.len() ==> keep(#[trigger] items[k]),
    ensures
        items.filter(keep) == items,
    decreases items.len(),
{
    reveal(Seq::filter);
    if items.len() > 0 {
        lemma_filter_all(items.drop_last(), keep);
        assert(keep(items[items.len() - 1]));
        assert(items.drop_last().push(items.last()) =~= items);
    }
}

proof fn lemma_filter_all_but_one(
    items: Seq<ItemRowModel>,
    keep: spec_fn(ItemRowModel) -> bool,
    at: int,
)
    requires
        0 <= at < items.len(),
        forall|k: int| 0 <= k < items.len() ==> keep(#[trigger] items[k]) == (k != at),
    ensures
        items.filter(keep) == items.remove(at),
    decreases items.len(),
{
    reveal(Seq::filter);
    let rest = items.drop_last();
    let last = items.len() - 1;
    assert(keep(items[last]) == (last != at));
    if at == last {
        lemma_filter_all(rest, keep);
        assert(items.remove(at) =~= rest);
    } else {
        lemma_filter_all_but_one(rest, keep, at);
        assert(items.remove(at) =~= rest.remove(at).push(items.last()));
    }
}

/// A report on a claim is taken exactly from the attempt that holds the claim, for a receipt that
/// can be read. It records the outcome: a start with its turn, a final rejection, an ambiguity
/// or, for a retryable rejection, a return to the queue without an attempt. The item leaves the
/// queue with a start or a final rejection, and stays otherwise.
pub proof fn a_report_is_recorded_for_the_attempt_that_holds_the_claim(
    store: StoreModel,
    i: int,
    attempt: Seq<char>,
    outcome: ClaimOutcomeModel,
)
    requires
        store.wf(),
        0 <= i < store.receipts.len(),
    ensures
        ({
            let row = store.receipts[i];
            let (next, answer) = store.finish(
                row.thread_id,
                row.queued_item_id,
                attempt,
                outcome,
            );
            let named = outcome matches ClaimOutcomeModel::Started { turn_id } ==> turn_id.len()
                > 0;
            let held = {
                &&& row.admission_result == "Claimed"@
                &&& row.attempt_id == Some(attempt)
                &&& row.native_session_id matches Some(id) && exists|k: int|
                    {
                        &&& 0 <= k < id.len()
                        &&& #[trigger] id[k] != ' '
                        &&& id[k] != '\0'
                        &&& forall|j: int| 0 <= j < k ==> id[j] == ' '
                    }
            };
            let result = match outcome {
                ClaimOutcomeModel::Started { .. } => VoiceAdmissionResult::Started,
                ClaimOutcomeModel::RetryableRejection { .. } => VoiceAdmissionResult::Queued,
                ClaimOutcomeModel::Rejected { .. } => VoiceAdmissionResult::Rejected,
                ClaimOutcomeModel::Ambiguous { .. } => VoiceAdmissionResult::Ambiguous,
            };
            let turn = match outcome {
                ClaimOutcomeModel::Started { turn_id } => Some(turn_id),
                _ => None,
            };
            let reason = match outcome {
                ClaimOutcomeModel::Started { .. } => None,
                ClaimOutcomeModel::RetryableRejection { reason } => Some(reason),
                ClaimOutcomeModel::Rejected { reason } => Some(reason),
                ClaimOutcomeModel::Ambiguous { reason } => Some(reason),
            };
            let holder = if outcome is RetryableRejection {
                None
            } else {
                Some(attempt)
            };
            &&& answer is Ok <==> named && held && row.receipt() is Ok
            &&& answer is Ok ==> {
                &&& answer->Ok_0 == ReceiptModel {
                    admission_result: result,
                    attempt_id: holder,
                    turn_id: turn,
                    reason,
                    ..row.receipt()->Ok_0
                }
                &&& next.receipts == store.receipts.update(
                    i,
                    ReceiptRowModel {
                        admission_result: match outcome {
                            ClaimOutcomeModel::Started { .. } => "Started"@,
                            ClaimOutcomeModel::RetryableRejection { .. } => "Queued"@,
                            ClaimOutcomeModel::Rejected { .. } => "Rejected"@,
                            ClaimOutcomeModel::Ambiguous { .. } => "Ambiguous"@,
                        },
                        attempt_id: holder,
                        turn_id: turn,
                        reason,
                        ..row
                    },
                )
                &&& next.max_queue_items == store.max_queue_items
                &&& outcome is Started || outcome is Rejected ==> next.items == store.items.filter(
                    |item: ItemRowModel|
                        !(item.thread_id == row.thread_id && item.id == row.queued_item_id),
                )
                &&& outcome is RetryableRejection || outcome is Ambiguous ==> next.items
                    == store.items
            }
            &&& answer is Err ==> next == store
            &&& !named ==> answer == Err::<ReceiptModel, _>(
                QueueErrorModel::Refused(Refusal::EmptyTurn),
            )
            &&& named && !held ==> answer == Err::<ReceiptModel, _>(
                QueueErrorModel::Refused(Refusal::ClaimMismatch),
            )
            &&& named && held ==> (row.receipt() matches Err(error) ==> answer == Err::<
                ReceiptModel,
                _,
            >(QueueErrorModel::Row(error)))
        }),
{
    let row = store.receipts[i];
    assert(store.holds_receipt(row.thread_id, row.queued_item_id, i));
    store.lemma_of_item(row.thread_id, row.queued_item_id, i);
    lemma_results();
    if let Some(id) = row.native_session_id {
        lemma_present(id);
    }
    let finished = StoreModel::finished(row, outcome);
    let recorded = store.with_receipt(i, finished);
    lemma_recorded(store, i, finished);
    lemma_without_item(recorded, row.thread_id, row.queued_item_id);
}

/// The names of the results are read back.
proof fn lemma_results()
    ensures
        result_of_text("Queued"@) == Some(VoiceAdmissionResult::Queued),
        result_of_text("Claimed"@) == Some(VoiceAdmissionResult::Claimed),
        result_of_text("Started"@) == Some(VoiceAdmissionResult::Started),
        result_of_text("Ambiguous"@) == Some(VoiceAdmissionResult::Ambiguous),
        result_of_text("Rejected"@) == Some(VoiceAdmissionResult::Rejected),
{
    a_stored_result_is_read_back(VoiceAdmissionResult::Queued, VoiceAdmissionResult::Queued);
    a_stored_result_is_read_back(VoiceAdmissionResult::Claimed, VoiceAdmissionResult::Claimed);
    a_stored_result_is_read_back(VoiceAdmissionResult::Started, VoiceAdmissionResult::Started);
    a_stored_result_is_read_back(VoiceAdmissionResult::Ambiguous, VoiceAdmissionResult::Ambiguous);
    a_stored_result_is_read_back(VoiceAdmissionResult::Rejected, VoiceAdmissionResult::Rejected);
}

/// A row that takes the place of another with the same keys clashes with nothing.
proof fn lemma_recorded(store: StoreModel, i: int, row: ReceiptRowModel)
    requires
        store.wf(),
        0 <= i < store.receipts.len(),
        row.thread_id == store.receipts[i].thread_id,
        row.origin_id == store.receipts[i].origin_id,
        row.queued_item_id == store.receipts[i].queued_item_id,
    ensures
        store.with_receipt(i, row).wf(),
{
    let next = store.with_receipt(i, row);
    assert forall|j: int, k: int|
        0 <= j < k < next.receipts.len() implies !StoreModel::same_receipt_key(
        #[trigger] next.receipts[j],
        #[trigger] next.receipts[k],
    ) by {
        assert(!StoreModel::same_receipt_key(store.receipts[j], store.receipts[k]));
    }
}

/// Positive evidence of a start settles a receipt exactly if it names the origin as the client,
/// the session of the receipt and a turn, and the receipt is claimed, ambiguous, or started with
/// that very turn. The receipt is then started with the turn and its item is off the queue.
pub proof fn evidence_settles_an_open_receipt(
    store: StoreModel,
    i: int,
    native_session_id: Seq<char>,
    client: Seq<char>,
    turn: Seq<char>,
)
    requires
        store.wf(),
        0 <= i < store.receipts.len(),
    ensures
        ({
            let row = store.receipts[i];
            let (next, answer) = store.reconcile(
                row.thread_id,
                native_session_id,
                row.origin_id,
                client,
                turn,
            );
            let present = exists|k: int|
                0 <= k < native_session_id.len() && !is_white_space(
                    #[trigger] native_session_id[k],
                );
            let matching = {
                &&& row.native_session_id == Some(native_session_id)
                &&& row.client_id == client
                &&& exists|k: int|
                    {
                        &&& 0 <= k < native_session_id.len()
                        &&& #[trigger] native_session_id[k] != ' '
                        &&& native_session_id[k] != '\0'
                        &&& forall|j: int| 0 <= j < k ==> native_session_id[j] == ' '
                    }
                &&& {
                    ||| row.admission_result == "Claimed"@
                    ||| row.admission_result == "Ambiguous"@
                    ||| row.admission_result == "Started"@ && row.turn_id == Some(turn)
                }
            };
            let asked = turn.len() > 0 && client == row.origin_id && present;
            &&& answer is Ok <==> asked && matching && row.receipt() is Ok
            &&& answer is Ok ==> {
                &&& answer->Ok_0 == ReceiptModel {
                    admission_result: VoiceAdmissionResult::Started,
                    turn_id: Some(turn),
                    reason: None,
                    ..row.receipt()->Ok_0
                }
                &&& next.receipts == store.receipts.update(
                    i,
                    ReceiptRowModel {
                        admission_result: "Started"@,
                        turn_id: Some(turn),
                        reason: None,
                        ..row
                    },
                )
                &&& next.items == store.items.filter(
                    |item: ItemRowModel|
                        !(item.thread_id == row.thread_id && item.id == row.queued_item_id),
                )
                &&& next.max_queue_items == store.max_queue_items
            }
            &&& answer is Err ==> next == store
            &&& turn.len() == 0 ==> answer == Err::<ReceiptModel, _>(
                QueueErrorModel::Refused(Refusal::EmptyTurn),
            )
            &&& turn.len() > 0 && client != row.origin_id ==> answer == Err::<ReceiptModel, _>(
                QueueErrorModel::Refused(Refusal::ReconciliationClientMismatch),
            )
            &&& turn.len() > 0 && client == row.origin_id && !present ==> answer == Err::<
                ReceiptModel,
                _,
            >(QueueErrorModel::Refused(Refusal::EmptyNativeSession))
            &&& asked && !matching ==> answer == Err::<ReceiptModel, _>(
                QueueErrorModel::Refused(Refusal::NotReconcilable),
            )
            &&& asked && matching ==> (row.receipt() matches Err(error) ==> answer == Err::<
                ReceiptModel,
                _,
            >(QueueErrorModel::Row(error)))
        }),
{
    let row = store.receipts[i];
    assert(store.holds_origin(row.thread_id, row.origin_id, i));
    store.lemma_of_origin(row.thread_id, row.origin_id, i);
    lemma_results();
    lemma_present(native_session_id);
    let started = ReceiptRowModel {
        admission_result: "Started"@,
        turn_id: Some(turn),
        reason: None,
        ..row
    };
    lemma_recorded(store, i, started);
    lemma_without_item(store.with_receipt(i, started), row.thread_id, row.queued_item_id);
}

/// An origin that the thread holds no receipt of cannot be reconciled, and is not found.
pub proof fn what_has_no_receipt_is_not_reconciled(
    store: StoreModel,
    thread: Seq<char>,
    native_session_id: Seq<char>,
    origin: Seq<char>,
    turn: Seq<char>,
)
    requires
        forall|k: int|
            0 <= k < store.receipts.len() ==> !(#[trigger] store.receipts[k].thread_id == thread
                && store.receipts[k].origin_id == origin),
        turn.len() > 0,
        exists|k: int|
            0 <= k < native_session_id.len() && !is_white_space(#[trigger] native_session_id[k]),
    ensures
        store.reconcile(thread, native_session_id, origin, origin, turn) == (
            store,
            Err::<ReceiptModel, _>(QueueErrorModel::Refused(Refusal::NotReconcilable)),
        ),
        store.receipt_of(store.of_origin(thread, origin)) == Ok::<
            Option<ReceiptModel>,
            QueueErrorModel,
        >(None),
{
    assert forall|k: int| !store.holds_origin(thread, origin, k) by {
        if store.holds_origin(thread, origin, k) {
            assert(store.receipts[k].thread_id == thread);
        }
    }
}

/// A receipt is found by its thread and origin, and by its thread and item, as its row says.
pub proof fn a_receipt_is_found_by_its_keys(store: StoreModel, i: int)
    requires
        store.wf(),
        0 <= i < store.receipts.len(),
    ensures
        ({
            let row = store.receipts[i];
            let found = match row.receipt() {
                Ok(receipt) => Ok::<_, QueueErrorModel>(Some(receipt)),
                Err(error) => Err(QueueErrorModel::Row(error)),
            };
            &&& store.receipt_of(store.of_origin(row.thread_id, row.origin_id)) == found
            &&& store.receipt_of(store.of_item(row.thread_id, row.queued_item_id)) == found
        }),
{
    let row = store.receipts[i];
    assert(store.holds_origin(row.thread_id, row.origin_id, i));
    store.lemma_of_origin(row.thread_id, row.origin_id, i);
    assert(store.holds_receipt(row.thread_id, row.queued_item_id, i));
    store.lemma_of_item(row.thread_id, row.queued_item_id, i);
}

/// Tables are well formed exactly if no two receipts of a thread share an origin or an item, and no
/// two items share an identity.
pub proof fn tables_are_well_formed_exactly_if_no_key_is_shared(store: StoreModel)
    ensures
        store.wf() <==> {
            &&& forall|i: int, j: int|
                0 <= i < j < store.receipts.len() && #[trigger] store.receipts[i].thread_id
                    == #[trigger] store.receipts[j].thread_id ==> {
                    &&& store.receipts[i].origin_id != store.receipts[j].origin_id
                    &&& store.receipts[i].queued_item_id != store.receipts[j].queued_item_id
                }
            &&& forall|i: int, j: int|
                0 <= i < j < store.items.len() ==> #[trigger] store.items[i].id
                    != #[trigger] store.items[j].id
        },
{
    if store.wf() {
        assert forall|i: int, j: int|
            0 <= i < j < store.receipts.len() && #[trigger] store.receipts[i].thread_id
                == #[trigger] store.receipts[j].thread_id implies {
            &&& store.receipts[i].origin_id != store.receipts[j].origin_id
            &&& store.receipts[i].queued_item_id != store.receipts[j].queued_item_id
        } by {
            assert(!StoreModel::same_receipt_key(store.receipts[i], store.receipts[j]));
        }
    }
    if forall|i: int, j: int|
        0 <= i < j < store.receipts.len() && #[trigger] store.receipts[i].thread_id
            == #[trigger] store.receipts[j].thread_id ==> {
            &&& store.receipts[i].origin_id != store.receipts[j].origin_id
            &&& store.receipts[i].queued_item_id != store.receipts[j].queued_item_id
        } {
        assert forall|i: int, j: int|
            0 <= i < j < store.receipts.len() implies !StoreModel::same_receipt_key(
            #[trigger] store.receipts[i],
            #[trigger] store.receipts[j],
        ) by {
            if store.receipts[i].thread_id == store.receipts[j].thread_id {
                assert(store.receipts[i].origin_id != store.receipts[j].origin_id);
            }
        }
    }
}

/// Each write does to the tables what it is called: a row is added at the end, the receipt of the
/// same thread and origin is replaced, or an item is taken out.
pub proof fn a_write_does_what_it_is_called(
    store: StoreModel,
    i: int,
    receipt: ReceiptRowModel,
    item: ItemRowModel,
    thread_id: Seq<char>,
    id: Seq<char>,
)
    requires
        store.wf(),
        0 <= i < store.receipts.len(),
        receipt.thread_id == store.receipts[i].thread_id,
        receipt.origin_id == store.receipts[i].origin_id,
    ensures
        store.written(WriteModel::InsertReceipt(receipt)) == (StoreModel {
            receipts: store.receipts.push(receipt),
            ..store
        }),
        store.written(WriteModel::UpdateReceipt(receipt)) == (StoreModel {
            receipts: store.receipts.update(i, receipt),
            ..store
        }),
        store.written(WriteModel::InsertItem(item)) == (StoreModel {
            items: store.items.push(item),
            ..store
        }),
        store.written(WriteModel::DeleteItem { thread_id, id }) == (StoreModel {
            items: store.items.filter(
                |row: ItemRowModel| !(row.thread_id == thread_id && row.id == id),
            ),
            ..store
        }),
{
    assert(store.holds_origin(receipt.thread_id, receipt.origin_id, i));
    store.lemma_of_origin(receipt.thread_id, receipt.origin_id, i);
    lemma_without_item(store, thread_id, id);
}

/// A series of writes is applied one after the other, the first one first; no write is no change.
pub proof fn writes_are_applied_in_order(
    store: StoreModel,
    writes: Seq<TableWrite>,
    next: TableWrite,
)
    ensures
        store.written_all(Seq::<TableWrite>::empty()) == store,
        store.written_all(writes.push(next)) == store.written_all(writes).written(next@),
{
    assert(writes.push(next).drop_last() =~= writes);
}

/// A failure is told in the words of what caused it: those of the refusal, of the parser, or of the
/// row that cannot be read.
pub proof fn a_failure_is_told_in_the_words_of_its_cause(
    refusal: Refusal,
    message: Seq<char>,
    error: RowError,
)
    ensures
        error_text(QueueErrorModel::InvalidPayload(message)) == message,
        error_text(QueueErrorModel::Refused(refusal)) == refusal_text(refusal),
        error_text(QueueErrorModel::Row(error)) == row_error_text(error),
{
}

} // verus!
