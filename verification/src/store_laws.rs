//! What holds of the durable queue whatever is requested of it, in whatever order.

use vstd::prelude::*;
use crate::ids::parsed_uuid;
use crate::receipt::{
    a_stored_result_is_read_back, ClaimOutcomeModel, EnqueueOutcomeModel, ItemRowModel,
    QueueOriginModel, ReceiptModel, ReceiptRowModel, RowError, VoiceAdmissionResult,
};
use crate::store_model::{
    last_order, lemma_push_keeps_wf, queued, QueueErrorModel, Refusal, StoreModel,
};

verus! {

/// Everything that changes the store.
pub enum StoreRequest {
    Enqueue {
        thread: Seq<char>,
        payload: Seq<char>,
        origin: QueueOriginModel,
        client: Result<Option<Seq<char>>, Seq<char>>,
        id: Seq<char>,
        now: i64,
    },
    Claim { thread: Seq<char>, item: Seq<char>, attempt: Seq<char> },
    Finish {
        thread: Seq<char>,
        item: Seq<char>,
        attempt: Seq<char>,
        outcome: ClaimOutcomeModel,
    },
    Reconcile {
        thread: Seq<char>,
        native_session_id: Seq<char>,
        origin: Seq<char>,
        client: Seq<char>,
        turn: Seq<char>,
    },
}

impl StoreRequest {
    /// The thread that a request is about.
    pub open spec fn thread(self) -> Seq<char> {
        match self {
            StoreRequest::Enqueue { thread, .. } => thread,
            StoreRequest::Claim { thread, .. } => thread,
            StoreRequest::Finish { thread, .. } => thread,
            StoreRequest::Reconcile { thread, .. } => thread,
        }
    }
}

impl StoreModel {
    /// The store after one request.
    pub open spec fn after(self, request: StoreRequest) -> StoreModel {
        match request {
            StoreRequest::Enqueue { thread, payload, origin, client, id, now } => self.enqueue(
                thread,
                payload,
                origin,
                client,
                id,
                now,
            ).0,
            StoreRequest::Claim { thread, item, attempt } => self.claim(thread, item, attempt).0,
            StoreRequest::Finish { thread, item, attempt, outcome } => self.finish(
                thread,
                item,
                attempt,
                outcome,
            ).0,
            StoreRequest::Reconcile { thread, native_session_id, origin, client, turn } => {
                self.reconcile(thread, native_session_id, origin, client, turn).0
            },
        }
    }

    /// The store after a series of requests.
    pub open spec fn after_all(self, requests: Seq<StoreRequest>) -> StoreModel
        decreases requests.len(),
    {
        if requests.len() == 0 {
            self
        } else {
            self.after_all(requests.drop_last()).after(requests.last())
        }
    }

    /// At most one claim of a thread has no known end.
    pub open spec fn one_open_claim(self) -> bool {
        forall|thread: Seq<char>, i: int, j: int| #[trigger]
            self.blocks(thread, i) && #[trigger] self.blocks(thread, j) ==> i == j
    }
}

/// Whether two rows say the same of everything but the progress of the admission.
pub open spec fn same_identity(a: ReceiptRowModel, b: ReceiptRowModel) -> bool {
    a == ReceiptRowModel {
        admission_result: a.admission_result,
        attempt_id: a.attempt_id,
        turn_id: a.turn_id,
        reason: a.reason,
        ..b
    }
}

/// The names of the results differ.
proof fn lemma_names()
    ensures
        "Queued"@ != "Claimed"@,
        "Queued"@ != "Started"@,
        "Queued"@ != "Ambiguous"@,
        "Queued"@ != "Rejected"@,
        "Queued"@ != "Cancelled"@,
        "Claimed"@ != "Started"@,
        "Claimed"@ != "Ambiguous"@,
        "Claimed"@ != "Rejected"@,
        "Claimed"@ != "Cancelled"@,
        "Started"@ != "Ambiguous"@,
        "Started"@ != "Rejected"@,
        "Started"@ != "Cancelled"@,
        "Ambiguous"@ != "Rejected"@,
        "Ambiguous"@ != "Cancelled"@,
{
    a_stored_result_is_read_back(VoiceAdmissionResult::Queued, VoiceAdmissionResult::Claimed);
    a_stored_result_is_read_back(VoiceAdmissionResult::Queued, VoiceAdmissionResult::Started);
    a_stored_result_is_read_back(VoiceAdmissionResult::Queued, VoiceAdmissionResult::Ambiguous);
    a_stored_result_is_read_back(VoiceAdmissionResult::Queued, VoiceAdmissionResult::Rejected);
    a_stored_result_is_read_back(VoiceAdmissionResult::Queued, VoiceAdmissionResult::Cancelled);
    a_stored_result_is_read_back(VoiceAdmissionResult::Claimed, VoiceAdmissionResult::Started);
    a_stored_result_is_read_back(VoiceAdmissionResult::Claimed, VoiceAdmissionResult::Ambiguous);
    a_stored_result_is_read_back(VoiceAdmissionResult::Claimed, VoiceAdmissionResult::Rejected);
    a_stored_result_is_read_back(VoiceAdmissionResult::Claimed, VoiceAdmissionResult::Cancelled);
    a_stored_result_is_read_back(VoiceAdmissionResult::Started, VoiceAdmissionResult::Ambiguous);
    a_stored_result_is_read_back(VoiceAdmissionResult::Started, VoiceAdmissionResult::Rejected);
    a_stored_result_is_read_back(VoiceAdmissionResult::Started, VoiceAdmissionResult::Cancelled);
    a_stored_result_is_read_back(VoiceAdmissionResult::Ambiguous, VoiceAdmissionResult::Rejected);
    a_stored_result_is_read_back(VoiceAdmissionResult::Ambiguous, VoiceAdmissionResult::Cancelled);
}

/// A row that takes the place of another with the same keys clashes with nothing.
proof fn lemma_update_keeps_wf(store: StoreModel, i: int, row: ReceiptRowModel)
    requires
        store.wf(),
        0 <= i < store.receipts.len(),
        same_identity(row, store.receipts[i]),
    ensures
        store.with_receipt(i, row).wf(),
{
    let next = store.with_receipt(i, row);
    assert forall|j: int, k: int|
        0 <= j < k < next.receipts.len() implies !StoreModel::same_receipt_key(
        #[trigger] next.receipts[j],
        #[trigger] next.receipts[k],
    ) by {
        assert(!StoreModel::same_receipt_key(store.receipts[j], store.receipts[k]));
    }
}

proof fn lemma_remove_keeps_wf(store: StoreModel, thread: Seq<char>, id: Seq<char>)
    requires
        store.wf(),
    ensures
        store.without_item(thread, id).wf(),
        store.without_item(thread, id).receipts == store.receipts,
        store.without_item(thread, id).max_queue_items == store.max_queue_items,
{
    let next = store.without_item(thread, id);
    assert forall|j: int, k: int| 0 <= j < k < next.items.len() implies #[trigger] next.items[j].id
        != #[trigger] next.items[k].id by {
        let i = choose|i: int| store.holds_item(id, i) && store.items[i].thread_id == thread;
        if exists|i: int| store.holds_item(id, i) && store.items[i].thread_id == thread {
            let before_j = if j < i {
                j
            } else {
                j + 1
            };
            let before_k = if k < i {
                k
            } else {
                k + 1
            };
            assert(store.items[before_j].id != store.items[before_k].id);
        }
    }
}

/// Every request keeps the tables keyed: an origin is never given a second receipt, nor an item.
pub proof fn every_request_keeps_the_tables_keyed(store: StoreModel, request: StoreRequest)
    requires
        store.wf(),
    ensures
        store.after(request).wf(),
        store.after(request).max_queue_items == store.max_queue_items,
{
    match request {
        StoreRequest::Enqueue { thread, payload, origin, client, id, now } => {
            let (next, outcome) = store.enqueue(thread, payload, origin, client, id, now);
            if outcome matches Ok(EnqueueOutcomeModel::Inserted(_)) {
                lemma_push_keeps_wf(store, next.receipts.last(), next.items.last());
            }
        },
        StoreRequest::Claim { thread, item, attempt } => {
            if let Some(i) = store.of_item(thread, item) {
                assert(store.holds_receipt(thread, item, i));
                let next = store.after(request);
                if next != store {
                    lemma_update_keeps_wf(store, i, next.receipts[i]);
                }
            }
        },
        StoreRequest::Finish { thread, item, attempt, outcome } => {
            if let Some(i) = store.of_item(thread, item) {
                assert(store.holds_receipt(thread, item, i));
                let row = StoreModel::finished(store.receipts[i], outcome);
                lemma_update_keeps_wf(store, i, row);
                lemma_remove_keeps_wf(store.with_receipt(i, row), thread, item);
            }
        },
        StoreRequest::Reconcile { thread, native_session_id, origin, client, turn } => {
            if let Some(i) = store.of_origin(thread, origin) {
                assert(store.holds_origin(thread, origin, i));
                let row = ReceiptRowModel {
                    admission_result: "Started"@,
                    turn_id: Some(turn),
                    reason: None,
                    ..store.receipts[i]
                };
                lemma_update_keeps_wf(store, i, row);
                lemma_remove_keeps_wf(
                    store.with_receipt(i, row),
                    thread,
                    row.queued_item_id,
                );
            }
        },
    }
}

/// The tables stay keyed through any series of requests.
pub proof fn the_tables_stay_keyed(store: StoreModel, requests: Seq<StoreRequest>)
    requires
        store.wf(),
    ensures
        store.after_all(requests).wf(),
        store.after_all(requests).max_queue_items == store.max_queue_items,
    decreases requests.len(),
{
    if requests.len() > 0 {
        the_tables_stay_keyed(store, requests.drop_last());
        every_request_keeps_the_tables_keyed(
            store.after_all(requests.drop_last()),
            requests.last(),
        );
    }
}

/// A request that fails changes nothing. The one exception is a claim whose receipt cannot be
/// read, which is kept all the same.
pub proof fn a_failed_request_changes_nothing(
    store: StoreModel,
    thread: Seq<char>,
    payload: Seq<char>,
    queue_origin: QueueOriginModel,
    payload_client: Result<Option<Seq<char>>, Seq<char>>,
    id: Seq<char>,
    now: i64,
    item: Seq<char>,
    attempt: Seq<char>,
    outcome: ClaimOutcomeModel,
    native_session_id: Seq<char>,
    origin: Seq<char>,
    client: Seq<char>,
    turn: Seq<char>,
)
    ensures
        ({
            let (next, answer) = store.enqueue(
                thread,
                payload,
                queue_origin,
                payload_client,
                id,
                now,
            );
            answer is Err ==> next == store
        }),
        ({
            let (next, answer) = store.claim(thread, item, attempt);
            answer is Err && !(answer->Err_0 is Row) ==> next == store
        }),
        ({
            let (next, answer) = store.finish(thread, item, attempt, outcome);
            answer is Err ==> next == store
        }),
        ({
            let (next, answer) = store.reconcile(thread, native_session_id, origin, client, turn);
            answer is Err ==> next == store
        }),
{
}

/// A receipt is never removed, and nothing but the progress of the admission ever changes in it.
pub proof fn a_receipt_is_kept(store: StoreModel, request: StoreRequest, i: int)
    requires
        store.wf(),
        0 <= i < store.receipts.len(),
    ensures
        i < store.after(request).receipts.len(),
        same_identity(store.after(request).receipts[i], store.receipts[i]),
{
    match request {
        StoreRequest::Enqueue { .. } => {},
        StoreRequest::Claim { thread, item, .. } => {},
        StoreRequest::Finish { thread, item, .. } => {
            if let Some(at) = store.of_item(thread, item) {
                assert(store.holds_receipt(thread, item, at));
            }
        },
        StoreRequest::Reconcile { thread, origin, .. } => {
            if let Some(at) = store.of_origin(thread, origin) {
                assert(store.holds_origin(thread, origin, at));
            }
        },
    }
}

/// A receipt survives any series of requests, and keeps its identity.
pub proof fn receipts_survive(store: StoreModel, requests: Seq<StoreRequest>, i: int)
    requires
        store.wf(),
        0 <= i < store.receipts.len(),
    ensures
        i < store.after_all(requests).receipts.len(),
        same_identity(store.after_all(requests).receipts[i], store.receipts[i]),
    decreases requests.len(),
{
    if requests.len() > 0 {
        receipts_survive(store, requests.drop_last(), i);
        the_tables_stay_keyed(store, requests.drop_last());
        a_receipt_is_kept(store.after_all(requests.drop_last()), requests.last(), i);
    }
}

/// Repeating a request to enqueue is answered with the receipt that the first one was given, and
/// changes nothing, whatever identity and time the repetition would have used.
pub proof fn a_replay_is_answered_with_its_receipt(
    store: StoreModel,
    thread: Seq<char>,
    payload: Seq<char>,
    origin: QueueOriginModel,
    client: Result<Option<Seq<char>>, Seq<char>>,
    id: Seq<char>,
    now: i64,
    other_id: Seq<char>,
    later: i64,
)
    requires
        store.wf(),
        store.enqueue(thread, payload, origin, client, id, now).1 is Ok,
    ensures
        ({
            let (next, outcome) = store.enqueue(thread, payload, origin, client, id, now);
            let receipt = match outcome->Ok_0 {
                EnqueueOutcomeModel::Inserted(receipt) => receipt,
                EnqueueOutcomeModel::Existing(receipt) => receipt,
            };
            next.enqueue(thread, payload, origin, client, other_id, later) == (
                next,
                Ok::<_, QueueErrorModel>(EnqueueOutcomeModel::Existing(receipt)),
            )
        }),
{
    let request = StoreRequest::Enqueue { thread, payload, origin, client, id, now };
    let next = store.after(request);
    every_request_keeps_the_tables_keyed(store, request);
    if let Some(i) = store.of_origin(thread, origin.origin_id) {
        assert(store.holds_origin(thread, origin.origin_id, i));
    } else {
        let i = store.receipts.len() as int;
        assert(next.holds_origin(thread, origin.origin_id, i));
        next.lemma_of_origin(thread, origin.origin_id, i);
    }
}

/// A valid request for a new origin is admitted wherever there is room: it gets a receipt and an
/// item.
pub proof fn a_valid_origin_is_admitted(
    store: StoreModel,
    thread: Seq<char>,
    payload: Seq<char>,
    origin: QueueOriginModel,
    client: Result<Option<Seq<char>>, Seq<char>>,
    id: Seq<char>,
    now: i64,
)
    requires
        parsed_uuid(thread) is Some,
        StoreModel::enqueue_refusal(origin, client) is None,
        store.of_origin(thread, origin.origin_id) is None,
        store.room_refusal(thread, id) is None,
    ensures
        ({
            let (next, outcome) = store.enqueue(thread, payload, origin, client, id, now);
            &&& outcome matches Ok(EnqueueOutcomeModel::Inserted(_))
            &&& next.receipts.len() == store.receipts.len() + 1
            &&& next.items.len() == store.items.len() + 1
        }),
{
    a_stored_result_is_read_back(VoiceAdmissionResult::Queued, VoiceAdmissionResult::Queued);
}

/// An origin is enqueued once: from then on no request to enqueue it changes the store, whatever
/// was requested in between, so no item of it ever comes into being again.
pub proof fn an_origin_is_enqueued_once(
    store: StoreModel,
    requests: Seq<StoreRequest>,
    i: int,
    payload: Seq<char>,
    origin: QueueOriginModel,
    client: Result<Option<Seq<char>>, Seq<char>>,
    id: Seq<char>,
    now: i64,
)
    requires
        store.wf(),
        store.holds_origin(store.receipts[i].thread_id, origin.origin_id, i),
    ensures
        ({
            let later = store.after_all(requests);
            let (next, outcome) = later.enqueue(
                store.receipts[i].thread_id,
                payload,
                origin,
                client,
                id,
                now,
            );
            next == later && !(outcome matches Ok(EnqueueOutcomeModel::Inserted(_)))
        }),
{
    let later = store.after_all(requests);
    let thread = store.receipts[i].thread_id;
    the_tables_stay_keyed(store, requests);
    receipts_survive(store, requests, i);
    assert(later.holds_origin(thread, origin.origin_id, i));
}

/// A receipt that can be read stays readable, whatever becomes of the admission.
pub proof fn a_readable_receipt_stays_readable(
    store: StoreModel,
    requests: Seq<StoreRequest>,
    i: int,
)
    requires
        store.wf(),
        0 <= i < store.receipts.len(),
        store.receipts[i].receipt() is Ok,
    ensures
        store.after_all(requests).receipts[i].receipt() is Ok,
    decreases requests.len(),
{
    if requests.len() > 0 {
        let before = store.after_all(requests.drop_last());
        a_readable_receipt_stays_readable(store, requests.drop_last(), i);
        receipts_survive(store, requests.drop_last(), i);
        receipts_survive(store, requests, i);
        match requests.last() {
            StoreRequest::Claim { thread, item, .. } => {
                if let Some(at) = before.of_item(thread, item) {
                    assert(before.holds_receipt(thread, item, at));
                    a_stored_result_is_read_back(
                        VoiceAdmissionResult::Claimed,
                        VoiceAdmissionResult::Claimed,
                    );
                }
            },
            StoreRequest::Finish { thread, item, .. } => {
                if let Some(at) = before.of_item(thread, item) {
                    assert(before.holds_receipt(thread, item, at));
                }
            },
            StoreRequest::Reconcile { thread, origin, .. } => {
                if let Some(at) = before.of_origin(thread, origin) {
                    assert(before.holds_origin(thread, origin, at));
                }
            },
            _ => {},
        }
    }
}

/// What was enqueued is answered for ever after with its receipt as it stands: repeating the
/// request after any others names the same item, and changes nothing.
pub proof fn a_replay_is_answered_ever_after(
    store: StoreModel,
    thread: Seq<char>,
    payload: Seq<char>,
    origin: QueueOriginModel,
    client: Result<Option<Seq<char>>, Seq<char>>,
    id: Seq<char>,
    now: i64,
    requests: Seq<StoreRequest>,
    other_id: Seq<char>,
    later: i64,
)
    requires
        store.wf(),
        store.enqueue(thread, payload, origin, client, id, now).1 matches Ok(
            EnqueueOutcomeModel::Inserted(_),
        ),
    ensures
        ({
            let present = store.enqueue(
                thread,
                payload,
                origin,
                client,
                id,
                now,
            ).0.after_all(requests);
            let (next, outcome) = present.enqueue(
                thread,
                payload,
                origin,
                client,
                other_id,
                later,
            );
            &&& next == present
            &&& outcome matches Ok(EnqueueOutcomeModel::Existing(receipt)) && {
                &&& receipt.queued_item_id == id
                &&& present.receipts[store.receipts.len() as int].receipt() == Ok::<_, RowError>(
                    receipt,
                )
            }
        }),
{
    let request = StoreRequest::Enqueue { thread, payload, origin, client, id, now };
    let first = store.after(request);
    let present = first.after_all(requests);
    let i = store.receipts.len() as int;
    every_request_keeps_the_tables_keyed(store, request);
    the_tables_stay_keyed(first, requests);
    assert(first.receipts[i] == StoreModel::new_receipt(thread, payload, origin, id));
    receipts_survive(first, requests, i);
    a_readable_receipt_stays_readable(first, requests, i);
    assert(present.holds_origin(thread, origin.origin_id, i));
    present.lemma_of_origin(thread, origin.origin_id, i);
}

/// A replay may not replace what was enqueued: where an origin is known with another payload,
/// session, generation, handoff or item, it is refused.
pub proof fn a_conflicting_replay_is_refused(
    store: StoreModel,
    i: int,
    payload: Seq<char>,
    origin: QueueOriginModel,
    client: Result<Option<Seq<char>>, Seq<char>>,
    id: Seq<char>,
    now: i64,
)
    requires
        store.wf(),
        store.holds_origin(store.receipts[i].thread_id, origin.origin_id, i),
        StoreModel::enqueue_refusal(origin, client) is None,
        store.receipts[i].receipt() is Ok,
        ({
            let row = store.receipts[i];
            ||| row.payload_json != payload
            ||| row.native_session_id != Some(origin.native_session_id)
            ||| row.voice_session_generation != origin.voice_session_generation
            ||| row.handoff_id != origin.handoff_id
            ||| row.item_id != origin.item_id
        }),
    ensures
        store.enqueue(store.receipts[i].thread_id, payload, origin, client, id, now) == (
            store,
            Err::<EnqueueOutcomeModel, QueueErrorModel>(
                QueueErrorModel::Refused(Refusal::OriginConflict),
            ),
        ),
{
    store.lemma_of_origin(store.receipts[i].thread_id, origin.origin_id, i);
}

/// Every request keeps it that at most one claim of a thread has no known end.
pub proof fn a_thread_has_one_open_claim(store: StoreModel, request: StoreRequest)
    requires
        store.wf(),
        store.one_open_claim(),
    ensures
        store.after(request).one_open_claim(),
{
    let next = store.after(request);
    lemma_names();
    match request {
        StoreRequest::Enqueue { .. } => {
            assert forall|t: Seq<char>, i: int| #[trigger] next.blocks(t, i) implies store.blocks(
                t,
                i,
            ) by {}
        },
        StoreRequest::Claim { thread, item, .. } => {
            if next != store {
                let at = store.of_item(thread, item)->0;
                assert(store.holds_receipt(thread, item, at));
                assert forall|t: Seq<char>, i: int| #[trigger] next.blocks(t, i) implies i == at || (
                t != thread && store.blocks(t, i)) by {
                    assert(!store.blocks(thread, i));
                }
            }
        },
        StoreRequest::Finish { thread, item, .. } => {
            if let Some(at) = store.of_item(thread, item) {
                assert(store.holds_receipt(thread, item, at));
                assert forall|t: Seq<char>, i: int| #[trigger]
                    next.blocks(t, i) implies store.blocks(t, i) by {}
            }
        },
        StoreRequest::Reconcile { thread, origin, .. } => {
            if let Some(at) = store.of_origin(thread, origin) {
                assert(store.holds_origin(thread, origin, at));
                assert forall|t: Seq<char>, i: int| #[trigger]
                    next.blocks(t, i) implies store.blocks(t, i) by {}
            }
        },
    }
}

/// So does every series of requests, beginning with the empty store.
pub proof fn threads_keep_one_open_claim(store: StoreModel, requests: Seq<StoreRequest>)
    requires
        store.wf(),
    ensures
        store.receipts.len() == 0 ==> store.one_open_claim(),
        store.one_open_claim() ==> store.after_all(requests).one_open_claim(),
    decreases requests.len(),
{
    if requests.len() > 0 && store.one_open_claim() {
        threads_keep_one_open_claim(store, requests.drop_last());
        the_tables_stay_keyed(store, requests.drop_last());
        a_thread_has_one_open_claim(store.after_all(requests.drop_last()), requests.last());
    }
}

/// While a claim of a thread has no known end, nothing of that thread can be claimed: a claim
/// does not expire.
pub proof fn an_open_claim_excludes_others(
    store: StoreModel,
    thread: Seq<char>,
    i: int,
    item: Seq<char>,
    attempt: Seq<char>,
)
    requires
        store.blocks(thread, i),
        attempt.len() > 0,
    ensures
        store.claim(thread, item, attempt) == (
            store,
            Ok::<Option<ReceiptModel>, QueueErrorModel>(None),
        ),
{
    if let Some(at) = store.of_item(thread, item) {
        assert(store.holds_receipt(thread, item, at));
    }
}

/// A claim ends only by a report of the attempt that holds it, or by positive reconciliation of
/// its origin under its session.
pub proof fn only_its_attempt_or_reconciliation_ends_a_claim(
    store: StoreModel,
    request: StoreRequest,
    i: int,
)
    requires
        store.wf(),
        0 <= i < store.receipts.len(),
        store.receipts[i].admission_result == "Claimed"@,
        store.after(request).receipts[i] != store.receipts[i],
    ensures
        match request {
            StoreRequest::Finish { thread, item, attempt, .. } => {
                &&& thread == store.receipts[i].thread_id
                &&& item == store.receipts[i].queued_item_id
                &&& store.receipts[i].attempt_id == Some(attempt)
            },
            StoreRequest::Reconcile { thread, native_session_id, origin, client, .. } => {
                &&& thread == store.receipts[i].thread_id
                &&& origin == store.receipts[i].origin_id
                &&& client == store.receipts[i].client_id
                &&& store.receipts[i].native_session_id == Some(native_session_id)
            },
            _ => false,
        },
{
    lemma_names();
    match request {
        StoreRequest::Finish { thread, item, .. } => {
            let at = store.of_item(thread, item)->0;
            assert(store.holds_receipt(thread, item, at));
        },
        StoreRequest::Reconcile { thread, origin, .. } => {
            let at = store.of_origin(thread, origin)->0;
            assert(store.holds_origin(thread, origin, at));
        },
        _ => {},
    }
}

/// What became of a claim stays unknown until positive evidence comes: an ambiguous receipt is
/// settled by reconciliation alone, and then as started.
pub proof fn only_reconciliation_settles_an_ambiguous_receipt(
    store: StoreModel,
    request: StoreRequest,
    i: int,
)
    requires
        store.wf(),
        0 <= i < store.receipts.len(),
        store.receipts[i].admission_result == "Ambiguous"@,
        store.after(request).receipts[i] != store.receipts[i],
    ensures
        request matches StoreRequest::Reconcile { thread, native_session_id, origin, turn, .. } && {
            &&& thread == store.receipts[i].thread_id
            &&& origin == store.receipts[i].origin_id
            &&& store.receipts[i].native_session_id == Some(native_session_id)
            &&& store.after(request).receipts[i].admission_result == "Started"@
            &&& store.after(request).receipts[i].turn_id == Some(turn)
        },
{
    lemma_names();
    match request {
        StoreRequest::Reconcile { thread, origin, .. } => {
            let at = store.of_origin(thread, origin)->0;
            assert(store.holds_origin(thread, origin, at));
        },
        _ => {},
    }
}

/// A rejected or cancelled receipt is final, and a started one keeps its turn.
pub proof fn a_settled_receipt_stays_settled(
    store: StoreModel,
    requests: Seq<StoreRequest>,
    i: int,
)
    requires
        store.wf(),
        0 <= i < store.receipts.len(),
    ensures
        store.receipts[i].admission_result == "Rejected"@ || store.receipts[i].admission_result
            == "Cancelled"@ ==> store.after_all(requests).receipts[i] == store.receipts[i],
        store.receipts[i].admission_result == "Started"@ ==> {
            &&& store.after_all(requests).receipts[i].admission_result == "Started"@
            &&& store.after_all(requests).receipts[i].turn_id == store.receipts[i].turn_id
            &&& store.after_all(requests).receipts[i].attempt_id == store.receipts[i].attempt_id
        },
    decreases requests.len(),
{
    lemma_names();
    if requests.len() > 0 {
        let before = store.after_all(requests.drop_last());
        a_settled_receipt_stays_settled(store, requests.drop_last(), i);
        the_tables_stay_keyed(store, requests.drop_last());
        receipts_survive(store, requests.drop_last(), i);
        match requests.last() {
            StoreRequest::Reconcile { thread, origin, .. } => {
                if let Some(at) = before.of_origin(thread, origin) {
                    assert(before.holds_origin(thread, origin, at));
                }
            },
            StoreRequest::Finish { thread, item, .. } => {
                if let Some(at) = before.of_item(thread, item) {
                    assert(before.holds_receipt(thread, item, at));
                }
            },
            _ => {},
        }
    }
}

/// A claim that is reported as a retryable rejection leaves the receipt as it was before the
/// claim, but for the reason, and its item in the queue.
pub proof fn a_retryable_rejection_releases_the_claim(
    store: StoreModel,
    thread: Seq<char>,
    item: Seq<char>,
    attempt: Seq<char>,
    reason: Seq<char>,
)
    requires
        store.wf(),
        store.claim(thread, item, attempt).1 matches Ok(Some(_)),
    ensures
        ({
            let i = store.of_item(thread, item)->0;
            let claimed = store.claim(thread, item, attempt).0;
            let (released, outcome) = claimed.finish(
                thread,
                item,
                attempt,
                ClaimOutcomeModel::RetryableRejection { reason },
            );
            &&& outcome is Ok
            &&& released.items == store.items
            &&& released.receipts == store.receipts.update(
                i,
                (ReceiptRowModel {
                    attempt_id: None,
                    turn_id: None,
                    reason: Some(reason),
                    ..store.receipts[i]
                }),
            )
        }),
{
    lemma_names();
    let i = store.of_item(thread, item)->0;
    assert(store.holds_receipt(thread, item, i));
    let request = StoreRequest::Claim { thread, item, attempt };
    let claimed = store.after(request);
    every_request_keeps_the_tables_keyed(store, request);
    assert(claimed.holds_receipt(thread, item, i));
    claimed.lemma_of_item(thread, item, i);
    let row = claimed.receipts[i];
    let released = StoreModel::finished(row, ClaimOutcomeModel::RetryableRejection { reason });
    assert(row.receipt() is Ok);
    assert(released.receipt() is Ok);
    assert(claimed.receipts.update(i, released) =~= store.receipts.update(
        i,
        (ReceiptRowModel {
            attempt_id: None,
            turn_id: None,
            reason: Some(reason),
            ..store.receipts[i]
        }),
    ));
}

/// A report of another attempt than the one that holds the claim is refused.
pub proof fn a_report_of_another_attempt_is_refused(
    store: StoreModel,
    i: int,
    attempt: Seq<char>,
    outcome: ClaimOutcomeModel,
)
    requires
        store.wf(),
        0 <= i < store.receipts.len(),
        store.receipts[i].attempt_id != Some(attempt),
        !(outcome matches ClaimOutcomeModel::Started { turn_id } && turn_id.len() == 0),
    ensures
        store.finish(
            store.receipts[i].thread_id,
            store.receipts[i].queued_item_id,
            attempt,
            outcome,
        ) == (
            store,
            Err::<ReceiptModel, QueueErrorModel>(QueueErrorModel::Refused(Refusal::ClaimMismatch)),
        ),
{
    let row = store.receipts[i];
    assert(store.holds_receipt(row.thread_id, row.queued_item_id, i));
    store.lemma_of_item(row.thread_id, row.queued_item_id, i);
}

proof fn lemma_removed(store: StoreModel, thread: Seq<char>, id: Seq<char>)
    requires
        store.wf(),
    ensures
        forall|i: int|
            !(#[trigger] store.without_item(thread, id).holds_item(id, i)
                && store.without_item(thread, id).items[i].thread_id == thread),
        forall|item: ItemRowModel| #[trigger]
            store.without_item(thread, id).items.contains(item) <==> store.items.contains(item)
                && !(item.thread_id == thread && item.id == id),
{
    let next = store.without_item(thread, id);
    if exists|i: int| store.holds_item(id, i) && store.items[i].thread_id == thread {
        let at = choose|i: int| store.holds_item(id, i) && store.items[i].thread_id == thread;
        assert forall|i: int| 0 <= i < next.items.len() implies next.items[i] == store.items[if i
            < at {
            i
        } else {
            i + 1
        }] && #[trigger] next.items[i].id != id by {
            let before = if i < at {
                i
            } else {
                i + 1
            };
            assert(store.items[before].id != store.items[at].id);
        }
        assert forall|item: ItemRowModel| #[trigger]
            next.items.contains(item) <==> store.items.contains(item) && !(item.thread_id == thread
                && item.id == id) by {
            if store.items.contains(item) && !(item.thread_id == thread && item.id == id) {
                let k = store.items.index_of(item);
                assert(k != at);
                let there = if k < at {
                    k
                } else {
                    k - 1
                };
                assert(next.items[there] == item);
            }
            if next.items.contains(item) {
                let k = next.items.index_of(item);
                let before = if k < at {
                    k
                } else {
                    k + 1
                };
                assert(store.items[before] == item);
            }
        }
    } else {
        assert forall|item: ItemRowModel| store.items.contains(item) implies !(item.thread_id
            == thread && item.id == id) by {
            let k = store.items.index_of(item);
            assert(!(store.holds_item(id, k) && store.items[k].thread_id == thread));
        }
    }
}

/// An item whose start or rejection is recorded is off the queue, and every other item is still
/// there.
pub proof fn a_settled_item_is_off_the_queue(
    store: StoreModel,
    thread: Seq<char>,
    item: Seq<char>,
    attempt: Seq<char>,
    outcome: ClaimOutcomeModel,
    other: ItemRowModel,
)
    requires
        store.wf(),
        store.finish(thread, item, attempt, outcome).1 is Ok,
    ensures
        store.finish(thread, item, attempt, outcome).0.items.contains(other) <==> {
            &&& store.items.contains(other)
            &&& outcome is Started || outcome is Rejected ==> !(other.thread_id == thread
                && other.id == item)
        },
{
    let i = store.of_item(thread, item)->0;
    assert(store.holds_receipt(thread, item, i));
    let row = StoreModel::finished(store.receipts[i], outcome);
    lemma_update_keeps_wf(store, i, row);
    lemma_removed(store.with_receipt(i, row), thread, item);
}

/// A reconciled item is off the queue, and every other item is still there.
pub proof fn a_reconciled_item_is_off_the_queue(
    store: StoreModel,
    thread: Seq<char>,
    native_session_id: Seq<char>,
    origin: Seq<char>,
    turn: Seq<char>,
    other: ItemRowModel,
)
    requires
        store.wf(),
        store.reconcile(thread, native_session_id, origin, origin, turn).1 is Ok,
    ensures
        ({
            let (next, outcome) = store.reconcile(thread, native_session_id, origin, origin, turn);
            next.items.contains(other) <==> store.items.contains(other) && !(other.thread_id
                == thread && other.id == outcome->Ok_0.queued_item_id)
        }),
{
    let i = store.of_origin(thread, origin)->0;
    assert(store.holds_origin(thread, origin, i));
    let row = ReceiptRowModel {
        admission_result: "Started"@,
        turn_id: Some(turn),
        reason: None,
        ..store.receipts[i]
    };
    lemma_update_keeps_wf(store, i, row);
    lemma_removed(store.with_receipt(i, row), thread, row.queued_item_id);
}

/// Reconciling again with the same evidence is answered the same way and changes nothing; with
/// another turn it is refused.
pub proof fn reconciliation_is_settled_once(
    store: StoreModel,
    thread: Seq<char>,
    native_session_id: Seq<char>,
    origin: Seq<char>,
    client: Seq<char>,
    turn: Seq<char>,
    other_turn: Seq<char>,
)
    requires
        store.wf(),
        store.reconcile(thread, native_session_id, origin, client, turn).1 is Ok,
        other_turn.len() > 0,
    ensures
        ({
            let (next, outcome) = store.reconcile(thread, native_session_id, origin, client, turn);
            &&& next.reconcile(thread, native_session_id, origin, client, turn) == (next, outcome)
            &&& other_turn != turn ==> next.reconcile(
                thread,
                native_session_id,
                origin,
                client,
                other_turn,
            ) == (
                next,
                Err::<ReceiptModel, QueueErrorModel>(
                    QueueErrorModel::Refused(Refusal::NotReconcilable),
                ),
            )
        }),
{
    lemma_names();
    let i = store.of_origin(thread, origin)->0;
    assert(store.holds_origin(thread, origin, i));
    let request = StoreRequest::Reconcile { thread, native_session_id, origin, client, turn };
    let next = store.after(request);
    every_request_keeps_the_tables_keyed(store, request);
    let row = ReceiptRowModel {
        admission_result: "Started"@,
        turn_id: Some(turn),
        reason: None,
        ..store.receipts[i]
    };
    let recorded = store.with_receipt(i, row);
    lemma_update_keeps_wf(store, i, row);
    lemma_removed(recorded, thread, row.queued_item_id);
    assert(next.receipts == recorded.receipts);
    assert(next.holds_origin(thread, origin, i));
    next.lemma_of_origin(thread, origin, i);
    let again = next.with_receipt(i, row);
    assert(again =~= next);
    assert forall|k: int|
        !(next.holds_item(row.queued_item_id, k) && next.items[k].thread_id == thread) by {
        assert(!(recorded.without_item(thread, row.queued_item_id).holds_item(
            row.queued_item_id,
            k,
        ) && next.items[k].thread_id == thread));
    }
}

/// No session is invented for a receipt that has none: it can be neither read, claimed, reported
/// on nor reconciled, and stays without one.
pub proof fn no_session_is_invented(
    store: StoreModel,
    requests: Seq<StoreRequest>,
    i: int,
    attempt: Seq<char>,
    outcome: ClaimOutcomeModel,
    native_session_id: Seq<char>,
    client: Seq<char>,
    turn: Seq<char>,
)
    requires
        store.wf(),
        0 <= i < store.receipts.len(),
        store.receipts[i].native_session_id is None,
        attempt.len() > 0,
    ensures
        ({
            let row = store.receipts[i];
            let later = store.after_all(requests);
            &&& later.receipts[i] == row
            &&& row.receipt() is Err
            &&& later.claim(row.thread_id, row.queued_item_id, attempt) == (
                later,
                Ok::<Option<ReceiptModel>, QueueErrorModel>(None),
            )
            &&& later.finish(row.thread_id, row.queued_item_id, attempt, outcome).1 is Err
            &&& later.reconcile(
                row.thread_id,
                native_session_id,
                row.origin_id,
                client,
                turn,
            ).1 is Err
        }),
    decreases requests.len(),
{
    let row = store.receipts[i];
    let later = store.after_all(requests);
    if requests.len() > 0 {
        let before = store.after_all(requests.drop_last());
        no_session_is_invented(
            store,
            requests.drop_last(),
            i,
            attempt,
            outcome,
            native_session_id,
            client,
            turn,
        );
        the_tables_stay_keyed(store, requests.drop_last());
        receipts_survive(store, requests.drop_last(), i);
        match requests.last() {
            StoreRequest::Reconcile { thread, origin, .. } => {
                if let Some(at) = before.of_origin(thread, origin) {
                    assert(before.holds_origin(thread, origin, at));
                }
            },
            StoreRequest::Finish { thread, item, .. } => {
                if let Some(at) = before.of_item(thread, item) {
                    assert(before.holds_receipt(thread, item, at));
                }
            },
            _ => {},
        }
    }
    the_tables_stay_keyed(store, requests);
    receipts_survive(store, requests, i);
    assert(later.holds_origin(row.thread_id, row.origin_id, i));
    assert(later.holds_receipt(row.thread_id, row.queued_item_id, i));
    later.lemma_of_origin(row.thread_id, row.origin_id, i);
    later.lemma_of_item(row.thread_id, row.queued_item_id, i);
}

/// An item that left the queue never returns: no later item has the identity of one that a
/// receipt was issued for.
pub proof fn an_item_that_left_never_returns(
    store: StoreModel,
    requests: Seq<StoreRequest>,
    i: int,
    k: int,
)
    requires
        store.wf(),
        0 <= i < store.receipts.len(),
        forall|j: int| !store.holds_item(store.receipts[i].queued_item_id, j),
    ensures
        !store.after_all(requests).holds_item(store.receipts[i].queued_item_id, k),
    decreases requests.len(),
{
    let id = store.receipts[i].queued_item_id;
    if requests.len() > 0 {
        let before = store.after_all(requests.drop_last());
        assert forall|j: int| !before.holds_item(id, j) by {
            an_item_that_left_never_returns(store, requests.drop_last(), i, j);
        }
        the_tables_stay_keyed(store, requests.drop_last());
        receipts_survive(store, requests.drop_last(), i);
        assert(before.receipts[i].queued_item_id == id);
        lemma_items_of_a_step(before, requests.last());
        let later = before.after(requests.last());
        if later.holds_item(id, k) {
            assert(later.items.contains(later.items[k]));
            if before.items.contains(later.items[k]) {
                let j = before.items.index_of(later.items[k]);
                assert(before.holds_item(id, j));
            }
        }
    }
}

/// Items come only by enqueueing, under an identity that is not in use, and leave only from the
/// thread that a request is about.
proof fn lemma_items_of_a_step(store: StoreModel, request: StoreRequest)
    requires
        store.wf(),
    ensures
        forall|item: ItemRowModel| #[trigger]
            store.after(request).items.contains(item) ==> store.items.contains(item) || (
            item.thread_id == request.thread() && !store.uses(item.id)),
        forall|item: ItemRowModel| #[trigger]
            store.items.contains(item) ==> store.after(request).items.contains(item)
                || item.thread_id == request.thread(),
{
    let next = store.after(request);
    match request {
        StoreRequest::Enqueue { .. } => {
            if next != store {
                let new = next.items.last();
                assert(next.items == store.items.push(new));
                assert forall|item: ItemRowModel| #[trigger] store.items.contains(
                    item,
                ) implies next.items.contains(item) by {
                    let k = store.items.index_of(item);
                    assert(next.items[k] == item);
                }
            }
        },
        StoreRequest::Claim { .. } => {},
        StoreRequest::Finish { thread, item, outcome, .. } => {
            if next != store {
                let i = store.of_item(thread, item)->0;
                assert(store.holds_receipt(thread, item, i));
                let row = StoreModel::finished(store.receipts[i], outcome);
                lemma_update_keeps_wf(store, i, row);
                lemma_removed(store.with_receipt(i, row), thread, item);
            }
        },
        StoreRequest::Reconcile { thread, origin, turn, .. } => {
            if next != store {
                let i = store.of_origin(thread, origin)->0;
                assert(store.holds_origin(thread, origin, i));
                let row = ReceiptRowModel {
                    admission_result: "Started"@,
                    turn_id: Some(turn),
                    reason: None,
                    ..store.receipts[i]
                };
                lemma_update_keeps_wf(store, i, row);
                lemma_removed(store.with_receipt(i, row), thread, row.queued_item_id);
            }
        },
    }
}

/// A request leaves the receipts and the items of every other thread as they are.
pub proof fn other_threads_are_untouched(
    store: StoreModel,
    request: StoreRequest,
    row: ReceiptRowModel,
    item: ItemRowModel,
)
    requires
        store.wf(),
        row.thread_id != request.thread(),
        item.thread_id != request.thread(),
    ensures
        store.after(request).receipts.contains(row) <==> store.receipts.contains(row),
        store.after(request).items.contains(item) <==> store.items.contains(item),
{
    let next = store.after(request);
    lemma_items_of_a_step(store, request);
    let thread = request.thread();
    assert forall|i: int| 0 <= i < next.receipts.len() implies {
        ||| #[trigger] next.receipts[i].thread_id == thread
        ||| i < store.receipts.len() && next.receipts[i] == store.receipts[i]
    } by {
        lemma_receipts_of_a_step(store, request, i);
    }
    if store.receipts.contains(row) {
        let k = store.receipts.index_of(row);
        a_receipt_is_kept(store, request, k);
        assert(next.receipts[k] == row);
    }
    if next.receipts.contains(row) {
        let k = next.receipts.index_of(row);
        assert(store.receipts[k] == row);
    }
}

proof fn lemma_receipts_of_a_step(store: StoreModel, request: StoreRequest, i: int)
    requires
        store.wf(),
        0 <= i < store.after(request).receipts.len(),
    ensures
        ({
            let next = store.after(request);
            ||| next.receipts[i].thread_id == request.thread()
            ||| i < store.receipts.len() && next.receipts[i] == store.receipts[i]
        }),
{
    match request {
        StoreRequest::Enqueue { .. } => {},
        StoreRequest::Claim { thread, item, .. } => {
            if let Some(at) = store.of_item(thread, item) {
                assert(store.holds_receipt(thread, item, at));
            }
        },
        StoreRequest::Finish { thread, item, .. } => {
            if let Some(at) = store.of_item(thread, item) {
                assert(store.holds_receipt(thread, item, at));
            }
        },
        StoreRequest::Reconcile { thread, origin, .. } => {
            if let Some(at) = store.of_origin(thread, origin) {
                assert(store.holds_origin(thread, origin, at));
            }
        },
    }
}

proof fn lemma_last_order(items: Seq<ItemRowModel>, thread: Seq<char>, i: int)
    requires
        0 <= i < items.len(),
        items[i].thread_id == thread,
    ensures
        last_order(items, thread) is Some,
        items[i].queue_order <= last_order(items, thread)->0,
    decreases items.len(),
{
    if i < items.len() - 1 {
        lemma_last_order(items.drop_last(), thread, i);
    }
}

/// First in, first out: a new item is ordered behind every item that its thread has queued.
pub proof fn a_new_item_is_queued_last(
    store: StoreModel,
    thread: Seq<char>,
    payload: Seq<char>,
    origin: QueueOriginModel,
    client: Result<Option<Seq<char>>, Seq<char>>,
    id: Seq<char>,
    now: i64,
    i: int,
)
    requires
        store.enqueue(thread, payload, origin, client, id, now).1 matches Ok(
            EnqueueOutcomeModel::Inserted(_),
        ),
        0 <= i < store.items.len(),
        store.items[i].thread_id == thread,
    ensures
        store.enqueue(thread, payload, origin, client, id, now).0.items.last().queue_order
            > store.items[i].queue_order,
        store.enqueue(thread, payload, origin, client, id, now).0.items.last().id == id,
{
    lemma_last_order(store.items, thread, i);
}

proof fn lemma_queued_remove(items: Seq<ItemRowModel>, thread: Seq<char>, i: int)
    requires
        0 <= i < items.len(),
    ensures
        queued(items.remove(i), thread) <= queued(items, thread),
    decreases items.len(),
{
    if i == items.len() - 1 {
        assert(items.remove(i) =~= items.drop_last());
    } else {
        lemma_queued_remove(items.drop_last(), thread, i);
        assert(items.remove(i).drop_last() =~= items.drop_last().remove(i));
        assert(items.remove(i).last() == items.last());
    }
}

proof fn lemma_queued_without(store: StoreModel, thread: Seq<char>, id: Seq<char>, of: Seq<char>)
    ensures
        queued(store.without_item(thread, id).items, of) <= queued(store.items, of),
{
    if exists|i: int| store.holds_item(id, i) && store.items[i].thread_id == thread {
        let at = choose|i: int| store.holds_item(id, i) && store.items[i].thread_id == thread;
        lemma_queued_remove(store.items, of, at);
    }
}

/// No request makes a thread queue more items than the limit.
pub proof fn the_queue_limit_is_kept(store: StoreModel, request: StoreRequest, thread: Seq<char>)
    requires
        queued(store.items, thread) <= store.max_queue_items,
    ensures
        queued(store.after(request).items, thread) <= store.after(request).max_queue_items,
{
    let next = store.after(request);
    match request {
        StoreRequest::Enqueue { .. } => {
            if next != store {
                assert(next.items.drop_last() =~= store.items);
            }
        },
        StoreRequest::Claim { .. } => {},
        StoreRequest::Finish { thread: of, item, outcome, .. } => {
            if let Some(i) = store.of_item(of, item) {
                let row = StoreModel::finished(store.receipts[i], outcome);
                lemma_queued_without(store.with_receipt(i, row), of, item, thread);
            }
        },
        StoreRequest::Reconcile { thread: of, origin, turn, .. } => {
            if let Some(i) = store.of_origin(of, origin) {
                let row = ReceiptRowModel {
                    admission_result: "Started"@,
                    turn_id: Some(turn),
                    reason: None,
                    ..store.receipts[i]
                };
                lemma_queued_without(store.with_receipt(i, row), of, row.queued_item_id, thread);
            }
        },
    }
}

/// Nor does it in the course of any series of requests.
pub proof fn the_queue_limit_stays_kept(
    store: StoreModel,
    requests: Seq<StoreRequest>,
    thread: Seq<char>,
)
    requires
        store.wf(),
        queued(store.items, thread) <= store.max_queue_items,
    ensures
        queued(store.after_all(requests).items, thread) <= store.max_queue_items,
    decreases requests.len(),
{
    if requests.len() > 0 {
        the_queue_limit_stays_kept(store, requests.drop_last(), thread);
        the_tables_stay_keyed(store, requests.drop_last());
        the_tables_stay_keyed(store, requests);
        the_queue_limit_is_kept(
            store.after_all(requests.drop_last()),
            requests.last(),
            thread,
        );
    }
}

/// A receipt that was issued names its item as its own identity, and the origin as its client.
pub proof fn an_issued_receipt_is_consistent(
    store: StoreModel,
    thread: Seq<char>,
    payload: Seq<char>,
    origin: QueueOriginModel,
    client: Result<Option<Seq<char>>, Seq<char>>,
    id: Seq<char>,
    now: i64,
)
    requires
        store.enqueue(thread, payload, origin, client, id, now).1 matches Ok(
            EnqueueOutcomeModel::Inserted(_),
        ),
    ensures
        ({
            let receipt = store.enqueue(
                thread,
                payload,
                origin,
                client,
                id,
                now,
            ).1->Ok_0->Inserted_0;
            &&& receipt.schema == "fdv.voice.admission.v1"@
            &&& receipt.queued_item_id == id
            &&& receipt.receipt_id == id
            &&& receipt.client_id == origin.origin_id
            &&& receipt.origin_id == origin.origin_id
            &&& receipt.native_session_id == origin.native_session_id
            &&& receipt.voice_session_generation == origin.voice_session_generation
            &&& receipt.handoff_id == origin.handoff_id
            &&& receipt.item_id == origin.item_id
            &&& receipt.admission_result == VoiceAdmissionResult::Queued
            &&& receipt.attempt_id is None && receipt.turn_id is None && receipt.reason is None
            &&& client == Ok::<_, Seq<char>>(Some(receipt.client_id))
        }),
{
}

} // verus!
