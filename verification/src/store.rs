//! The durable queue of spoken submissions.

use vstd::prelude::*;
use crate::ids::{fresh_uuid, now_millis, uuid_text, uuid_to_text, ThreadId};
use crate::json::{json_string_at, json_text_at};
use crate::receipt::{
    EnqueueOutcomeModel, QueuedItemRow, ReceiptModel, VoiceAdmissionReceipt, VoiceAdmissionResult,
    VoiceClaimOutcome, VoiceEnqueueOutcome, VoiceQueueOrigin, VoiceReceiptRow,
};
use crate::store_model::{
    first_visible, last_order, lemma_push_keeps_wf, queued, sql_present, QueueErrorModel, Refusal,
    StoreModel, TableWrite, VoiceQueueError, WriteModel,
};
use crate::text::{is_blank, opt_text, same_opt_text, same_text};

verus! {

/// Whether the store counts a native session as present.
fn is_sql_present(id: &str) -> (present: bool)
    ensures
        present == sql_present(id@),
{
    for c in it: id.chars()
        invariant
            it.seq() == id@,
            forall|j: int| 0 <= j < it.index() ==> id@[j] == ' ',
    {
        if c != ' ' {
            let ghost at = it.index();
            if c != '\0' {
                assert(first_visible(id@, at));
                return true;
            }
            assert forall|i: int| !first_visible(id@, i) by {
                if i > at {
                    assert(id@[at] != ' ');
                }
            }
            return false;
        }
    }
    assert forall|i: int| !first_visible(id@, i) by {}
    false
}

/// The receipts and the queued items of threads, as rows of two tables, and the writes that the
/// tables have yet to be given.
pub struct SqliteQueueStore {
    max_queue_items: usize,
    receipts: Vec<VoiceReceiptRow>,
    items: Vec<QueuedItemRow>,
    writes: Vec<TableWrite>,
    saved: Ghost<StoreModel>,
}

impl View for SqliteQueueStore {
    type V = StoreModel;

    closed spec fn view(&self) -> StoreModel {
        store_model(self.max_queue_items, self.receipts@, self.items@)
    }
}

/// What the rows of the tables stand for.
pub open spec fn store_model(
    max_queue_items: usize,
    receipts: Seq<VoiceReceiptRow>,
    items: Seq<QueuedItemRow>,
) -> StoreModel {
    StoreModel {
        max_queue_items,
        receipts: receipts.map_values(|row: VoiceReceiptRow| row@),
        items: items.map_values(|row: QueuedItemRow| row@),
    }
}

/// An outcome, with what it holds taken by its model.
pub open spec fn receipt_result(outcome: Result<VoiceAdmissionReceipt, VoiceQueueError>) -> Result<
    ReceiptModel,
    QueueErrorModel,
> {
    match outcome {
        Ok(receipt) => Ok(receipt@),
        Err(error) => Err(error@),
    }
}

/// An outcome, with what it holds taken by its model.
pub open spec fn lookup_result(
    outcome: Result<Option<VoiceAdmissionReceipt>, VoiceQueueError>,
) -> Result<Option<ReceiptModel>, QueueErrorModel> {
    match outcome {
        Ok(Some(receipt)) => Ok(Some(receipt@)),
        Ok(None) => Ok(None),
        Err(error) => Err(error@),
    }
}

/// An outcome, with what it holds taken by its model.
pub open spec fn enqueue_result(
    outcome: Result<VoiceEnqueueOutcome, VoiceQueueError>,
) -> Result<EnqueueOutcomeModel, QueueErrorModel> {
    match outcome {
        Ok(outcome) => Ok(outcome@),
        Err(error) => Err(error@),
    }
}

fn read_receipt(row: &VoiceReceiptRow) -> (receipt: Result<VoiceAdmissionReceipt, VoiceQueueError>)
    ensures
        receipt_result(receipt) == match row@.receipt() {
            Ok(receipt) => Ok::<ReceiptModel, QueueErrorModel>(receipt),
            Err(error) => Err(QueueErrorModel::Row(error)),
        },
{
    match VoiceAdmissionReceipt::try_from_row(row) {
        Ok(receipt) => Ok(receipt),
        Err(error) => Err(VoiceQueueError::Row(error)),
    }
}

impl SqliteQueueStore {
    /// The tables are keyed as they should be, and the pending writes lead to them.
    pub closed spec fn wf(self) -> bool {
        self@.wf() && self.saved().written_all(self.writes@) == self@
    }

    /// The tables as they were loaded or last written out.
    pub closed spec fn saved(self) -> StoreModel {
        self.saved@
    }

    /// A well-formed store stands for well-formed tables.
    pub proof fn lemma_wf(self)
        requires
            self.wf(),
        ensures
            self@.wf(),
    {
    }

    /// A store over rows, provided that no two of them share a key.
    pub fn load(
        max_queue_items: usize,
        receipts: Vec<VoiceReceiptRow>,
        items: Vec<QueuedItemRow>,
    ) -> (store: Option<Self>)
        ensures
            match store {
                Some(store) => {
                    &&& store.wf()
                    &&& store@ == store_model(max_queue_items, receipts@, items@)
                    &&& store.saved() == store@
                },
                None => !store_model(max_queue_items, receipts@, items@).wf(),
            },
    {
        let saved = Ghost(store_model(max_queue_items, receipts@, items@));
        let store = SqliteQueueStore {
            max_queue_items,
            receipts,
            items,
            writes: Vec::new(),
            saved,
        };
        if store.receipts_are_keyed() && store.items_are_keyed() {
            Some(store)
        } else {
            None
        }
    }

    fn receipts_are_keyed(&self) -> (keyed: bool)
        ensures
            keyed == self@.receipts_wf(),
    {
        for i in 0..self.receipts.len()
            invariant
                forall|j: int, k: int|
                    0 <= j < k < i ==> !StoreModel::same_receipt_key(
                        self@.receipts[j],
                        self@.receipts[k],
                    ),
        {
            for j in 0..i
                invariant
                    i < self.receipts.len(),
                    forall|k: int|
                        0 <= k < j ==> !StoreModel::same_receipt_key(
                            #[trigger] self@.receipts[k],
                            self@.receipts[i as int],
                        ),
            {
                let a = &self.receipts[j];
                let b = &self.receipts[i];
                if same_text(a.thread_id.as_str(), b.thread_id.as_str()) && (same_text(
                    a.origin_id.as_str(),
                    b.origin_id.as_str(),
                ) || same_text(a.queued_item_id.as_str(), b.queued_item_id.as_str())) {
                    assert(StoreModel::same_receipt_key(
                        self@.receipts[j as int],
                        self@.receipts[i as int],
                    ));
                    return false;
                }
            }
        }
        true
    }

    fn items_are_keyed(&self) -> (keyed: bool)
        ensures
            keyed == self@.items_wf(),
    {
        for i in 0..self.items.len()
            invariant
                forall|j: int, k: int|
                    0 <= j < k < i ==> self@.items[j].id != self@.items[k].id,
        {
            for j in 0..i
                invariant
                    i < self.items.len(),
                    forall|k: int| 0 <= k < j ==> self@.items[k].id != self@.items[i as int].id,
            {
                if same_text(self.items[j].id.as_str(), self.items[i].id.as_str()) {
                    assert(self@.items[j as int].id == self@.items[i as int].id);
                    return false;
                }
            }
        }
        true
    }

    /// How many items a thread may queue.
    pub fn max_queue_items(&self) -> (limit: usize)
        ensures
            limit == self@.max_queue_items,
    {
        self.max_queue_items
    }

    /// Hands out the pending writes, in the order in which the tables are to be given them. They
    /// lead from the tables as they were to the tables as they are.
    pub fn take_writes(&mut self) -> (writes: Vec<TableWrite>)
        requires
            old(self).wf(),
        ensures
            final(self).wf(),
            final(self)@ == old(self)@,
            final(self).saved() == final(self)@,
            old(self).saved().written_all(writes@) == old(self)@,
    {
        let mut writes: Vec<TableWrite> = Vec::new();
        std::mem::swap(&mut writes, &mut self.writes);
        self.saved = Ghost(self@);
        writes
    }

    /// The rows of the table of receipts.
    pub fn receipts(&self) -> (rows: &Vec<VoiceReceiptRow>)
        ensures
            self@.receipts == rows@.map_values(|row: VoiceReceiptRow| row@),
    {
        &self.receipts
    }

    /// The rows of the table of queued items.
    pub fn items(&self) -> (rows: &Vec<QueuedItemRow>)
        ensures
            self@.items == rows@.map_values(|row: QueuedItemRow| row@),
    {
        &self.items
    }

    fn find_origin(&self, thread: &str, origin: &str) -> (at: Option<usize>)
        requires
            self.wf(),
        ensures
            match at {
                Some(i) => self@.of_origin(thread@, origin@) == Some(i as int)
                    && self@.holds_origin(thread@, origin@, i as int),
                None => self@.of_origin(thread@, origin@) is None,
            },
    {
        for i in 0..self.receipts.len()
            invariant
                self.wf(),
                forall|k: int| k < i ==> !self@.holds_origin(thread@, origin@, k),
        {
            let row = &self.receipts[i];
            assert(self@.receipts[i as int] == row@);
            if same_text(row.thread_id.as_str(), thread) && same_text(
                row.origin_id.as_str(),
                origin,
            ) {
                proof {
                    self@.lemma_of_origin(thread@, origin@, i as int);
                }
                return Some(i);
            }
        }
        None
    }

    fn find_receipt(&self, thread: &str, item: &str) -> (at: Option<usize>)
        requires
            self.wf(),
        ensures
            match at {
                Some(i) => self@.of_item(thread@, item@) == Some(i as int)
                    && self@.holds_receipt(thread@, item@, i as int),
                None => self@.of_item(thread@, item@) is None,
            },
    {
        for i in 0..self.receipts.len()
            invariant
                self.wf(),
                forall|k: int| k < i ==> !self@.holds_receipt(thread@, item@, k),
        {
            let row = &self.receipts[i];
            assert(self@.receipts[i as int] == row@);
            if same_text(row.thread_id.as_str(), thread) && same_text(
                row.queued_item_id.as_str(),
                item,
            ) {
                proof {
                    self@.lemma_of_item(thread@, item@, i as int);
                }
                return Some(i);
            }
        }
        None
    }

    fn is_blocked(&self, thread: &str) -> (blocked: bool)
        ensures
            blocked == exists|i: int| self@.blocks(thread@, i),
    {
        for i in 0..self.receipts.len()
            invariant
                forall|k: int| k < i ==> !self@.blocks(thread@, k),
        {
            let row = &self.receipts[i];
            assert(self@.receipts[i as int] == row@);
            if same_text(row.thread_id.as_str(), thread) && (same_text(
                row.admission_result.as_str(),
                "Claimed",
            ) || same_text(row.admission_result.as_str(), "Ambiguous")) {
                assert(self@.blocks(thread@, i as int));
                return true;
            }
        }
        false
    }

    fn is_backed(&self, row: &VoiceReceiptRow) -> (backed: bool)
        ensures
            backed == exists|i: int| self@.backs(row@, i),
    {
        for i in 0..self.items.len()
            invariant
                forall|k: int| k < i ==> !self@.backs(row@, k),
        {
            let item = &self.items[i];
            assert(self@.items[i as int] == item@);
            if same_text(item.id.as_str(), row.queued_item_id.as_str()) && same_text(
                item.thread_id.as_str(),
                row.thread_id.as_str(),
            ) && same_text(item.payload_json.as_str(), row.payload_json.as_str()) {
                assert(self@.backs(row@, i as int));
                return true;
            }
        }
        false
    }

    fn is_claimable(&self, row: &VoiceReceiptRow) -> (claimable: bool)
        ensures
            claimable == self@.claimable(row@),
    {
        let present = match &row.native_session_id {
            Some(id) => is_sql_present(id.as_str()),
            None => false,
        };
        same_text(row.admission_result.as_str(), "Queued") && present && self.is_backed(row)
            && !self.is_blocked(row.thread_id.as_str())
    }

    /// The receipt of an origin.
    pub fn get_voice_receipt(&self, thread_id: ThreadId, origin_id: &str) -> (outcome: Result<
        Option<VoiceAdmissionReceipt>,
        VoiceQueueError,
    >)
        requires
            self.wf(),
        ensures
            lookup_result(outcome) == self@.receipt_of(
                self@.of_origin(uuid_text(thread_id.uuid), origin_id@),
            ),
    {
        let thread = thread_id.to_string();
        match self.find_origin(thread.as_str(), origin_id) {
            Some(i) => {
                assert(self@.receipts[i as int] == self.receipts@[i as int]@);
                match read_receipt(&self.receipts[i]) {
                    Ok(receipt) => Ok(Some(receipt)),
                    Err(error) => Err(error),
                }
            },
            None => Ok(None),
        }
    }

    /// The receipt of a queued item.
    pub fn voice_receipt_for_item(&self, thread_id: ThreadId, queued_item_id: &str) -> (outcome:
        Result<Option<VoiceAdmissionReceipt>, VoiceQueueError>)
        requires
            self.wf(),
        ensures
            lookup_result(outcome) == self@.receipt_of(
                self@.of_item(uuid_text(thread_id.uuid), queued_item_id@),
            ),
    {
        let thread = thread_id.to_string();
        match self.find_receipt(thread.as_str(), queued_item_id) {
            Some(i) => {
                assert(self@.receipts[i as int] == self.receipts@[i as int]@);
                match read_receipt(&self.receipts[i]) {
                    Ok(receipt) => Ok(Some(receipt)),
                    Err(error) => Err(error),
                }
            },
            None => Ok(None),
        }
    }

    /// Puts a row in the place of another with the same keys.
    fn set_receipt(&mut self, at: usize, row: VoiceReceiptRow)
        requires
            old(self).wf(),
            at < old(self)@.receipts.len(),
            row@.thread_id == old(self)@.receipts[at as int].thread_id,
            row@.origin_id == old(self)@.receipts[at as int].origin_id,
            row@.queued_item_id == old(self)@.receipts[at as int].queued_item_id,
        ensures
            final(self).wf(),
            final(self).saved() == old(self).saved(),
            final(self)@ == old(self)@.with_receipt(at as int, row@),
    {
        let ghost writes = self.writes@;
        self.writes.push(TableWrite::UpdateReceipt(row.clone()));
        self.receipts.set(at, row);
        assert(self.writes@.drop_last() =~= writes);
        proof {
            assert(old(self)@.holds_origin(row@.thread_id, row@.origin_id, at as int));
            old(self)@.lemma_of_origin(row@.thread_id, row@.origin_id, at as int);
        }
        assert(self@ =~= old(self)@.with_receipt(at as int, row@));
        assert forall|i: int, j: int|
            0 <= i < j < self@.receipts.len() implies !StoreModel::same_receipt_key(
            #[trigger] self@.receipts[i],
            #[trigger] self@.receipts[j],
        ) by {
            assert(!StoreModel::same_receipt_key(
                old(self)@.receipts[i],
                old(self)@.receipts[j],
            ));
        }
    }

    fn find_item(&self, thread: &str, id: &str) -> (at: Option<usize>)
        ensures
            match at {
                Some(i) => self@.holds_item(id@, i as int) && self@.items[i as int].thread_id
                    == thread@,
                None => forall|i: int|
                    !(self@.holds_item(id@, i) && self@.items[i].thread_id == thread@),
            },
    {
        for i in 0..self.items.len()
            invariant
                forall|k: int|
                    k < i ==> !(self@.holds_item(id@, k) && self@.items[k].thread_id == thread@),
        {
            let item = &self.items[i];
            assert(self@.items[i as int] == item@);
            if same_text(item.id.as_str(), id) && same_text(item.thread_id.as_str(), thread) {
                return Some(i);
            }
        }
        None
    }

    fn remove_item(&mut self, thread: &str, id: &str)
        requires
            old(self).wf(),
        ensures
            final(self).wf(),
            final(self).saved() == old(self).saved(),
            final(self)@ == old(self)@.without_item(thread@, id@),
    {
        if let Some(i) = self.find_item(thread, id) {
            let ghost before = self@;
            let ghost writes = self.writes@;
            self.writes.push(
                TableWrite::DeleteItem { thread_id: thread.to_owned(), id: id.to_owned() },
            );
            self.items.remove(i);
            assert(self.writes@.drop_last() =~= writes);
            proof {
                let at = choose|k: int|
                    before.holds_item(id@, k) && before.items[k].thread_id == thread@;
                assert(before.items[at].id == before.items[i as int].id);
                assert(self@ =~= before.without_item(thread@, id@));
            }
        }
    }

    /// Claims a queued item for an attempt. A claim never expires into eligibility: whoever lost
    /// track of one has to reconcile it.
    pub fn claim_voice(&mut self, thread_id: ThreadId, queued_item_id: &str, attempt_id: &str) -> (
        outcome: Result<Option<VoiceAdmissionReceipt>, VoiceQueueError>)
        requires
            old(self).wf(),
        ensures
            final(self).wf(),
            final(self).saved() == old(self).saved(),
            (final(self)@, lookup_result(outcome)) == old(self)@.claim(
                uuid_text(thread_id.uuid),
                queued_item_id@,
                attempt_id@,
            ),
    {
        if attempt_id.is_empty() {
            return Err(VoiceQueueError::Refused(Refusal::EmptyAttempt));
        }
        let thread = thread_id.to_string();
        let at: usize = match self.find_receipt(thread.as_str(), queued_item_id) {
            Some(i) => i,
            None => {
                return Ok(None);
            },
        };
        assert(self@.receipts[at as int] == self.receipts@[at as int]@);
        if !self.is_claimable(&self.receipts[at]) {
            return Ok(None);
        }
        let mut row = self.receipts[at].clone();
        row.admission_result = "Claimed".to_owned();
        row.attempt_id = Some(attempt_id.to_owned());
        row.reason = None;
        let outcome = read_receipt(&row);
        self.set_receipt(at, row);
        match outcome {
            Ok(receipt) => Ok(Some(receipt)),
            Err(error) => Err(error),
        }
    }

    /// Records how a claim ended, and takes a started or rejected item off the queue.
    pub fn finish_voice_claim(
        &mut self,
        thread_id: ThreadId,
        queued_item_id: &str,
        attempt_id: &str,
        outcome: VoiceClaimOutcome,
    ) -> (receipt: Result<VoiceAdmissionReceipt, VoiceQueueError>)
        requires
            old(self).wf(),
        ensures
            final(self).wf(),
            final(self).saved() == old(self).saved(),
            (final(self)@, receipt_result(receipt)) == old(self)@.finish(
                uuid_text(thread_id.uuid),
                queued_item_id@,
                attempt_id@,
                outcome@,
            ),
    {
        let (state, turn_id, reason) = match &outcome {
            VoiceClaimOutcome::Started { turn_id } => {
                if turn_id.as_str().is_empty() {
                    return Err(VoiceQueueError::Refused(Refusal::EmptyTurn));
                }
                (VoiceAdmissionResult::Started, Some(turn_id.clone()), None)
            },
            VoiceClaimOutcome::RetryableRejection { reason } => {
                (VoiceAdmissionResult::Queued, None, Some(reason.clone()))
            },
            VoiceClaimOutcome::Rejected { reason } => {
                (VoiceAdmissionResult::Rejected, None, Some(reason.clone()))
            },
            VoiceClaimOutcome::Ambiguous { reason } => {
                (VoiceAdmissionResult::Ambiguous, None, Some(reason.clone()))
            },
        };
        let thread = thread_id.to_string();
        let at: usize = match self.find_receipt(thread.as_str(), queued_item_id) {
            Some(i) => i,
            None => {
                return Err(VoiceQueueError::Refused(Refusal::ClaimMismatch));
            },
        };
        assert(self@.receipts[at as int] == self.receipts@[at as int]@);
        if !is_claim_of(&self.receipts[at], attempt_id) {
            return Err(VoiceQueueError::Refused(Refusal::ClaimMismatch));
        }
        let mut row = self.receipts[at].clone();
        row.admission_result = state.text().to_owned();
        row.turn_id = turn_id;
        row.reason = reason;
        row.attempt_id = if state == VoiceAdmissionResult::Queued {
            None
        } else {
            Some(attempt_id.to_owned())
        };
        assert(row@ == StoreModel::finished(self@.receipts[at as int], outcome@));
        let receipt = match read_receipt(&row) {
            Ok(receipt) => receipt,
            Err(error) => {
                return Err(error);
            },
        };
        self.set_receipt(at, row);
        if state == VoiceAdmissionResult::Started || state == VoiceAdmissionResult::Rejected {
            self.remove_item(thread.as_str(), queued_item_id);
        }
        Ok(receipt)
    }

    /// Records that a turn started for an origin. The caller has positively matched the thread,
    /// the turn and the client in what was persisted; the absence of history is no evidence.
    pub fn reconcile_voice_started(
        &mut self,
        thread_id: ThreadId,
        native_session_id: &str,
        origin_id: &str,
        client_id: &str,
        turn_id: &str,
    ) -> (receipt: Result<VoiceAdmissionReceipt, VoiceQueueError>)
        requires
            old(self).wf(),
        ensures
            final(self).wf(),
            final(self).saved() == old(self).saved(),
            (final(self)@, receipt_result(receipt)) == old(self)@.reconcile(
                uuid_text(thread_id.uuid),
                native_session_id@,
                origin_id@,
                client_id@,
                turn_id@,
            ),
    {
        if turn_id.is_empty() {
            return Err(VoiceQueueError::Refused(Refusal::EmptyTurn));
        }
        if !same_text(client_id, origin_id) {
            return Err(VoiceQueueError::Refused(Refusal::ReconciliationClientMismatch));
        }
        if is_blank(native_session_id) {
            return Err(VoiceQueueError::Refused(Refusal::EmptyNativeSession));
        }
        let thread = thread_id.to_string();
        let at: usize = match self.find_origin(thread.as_str(), origin_id) {
            Some(i) => i,
            None => {
                return Err(VoiceQueueError::Refused(Refusal::NotReconcilable));
            },
        };
        assert(self@.receipts[at as int] == self.receipts@[at as int]@);
        if !is_reconcilable(&self.receipts[at], native_session_id, client_id, turn_id) {
            return Err(VoiceQueueError::Refused(Refusal::NotReconcilable));
        }
        let mut row = self.receipts[at].clone();
        row.admission_result = "Started".to_owned();
        row.turn_id = Some(turn_id.to_owned());
        row.reason = None;
        let receipt = match read_receipt(&row) {
            Ok(receipt) => receipt,
            Err(error) => {
                return Err(error);
            },
        };
        let queued_item_id = row.queued_item_id.clone();
        self.set_receipt(at, row);
        self.remove_item(thread.as_str(), queued_item_id.as_str());
        Ok(receipt)
    }

    fn queue_len(&self, thread: &str) -> (len: usize)
        ensures
            len == queued(self@.items, thread@),
            len <= self@.items.len(),
    {
        let mut len: usize = 0;
        for i in 0..self.items.len()
            invariant
                len == queued(self@.items.take(i as int), thread@),
                len <= i,
        {
            assert(self@.items.take(i + 1).drop_last() =~= self@.items.take(i as int));
            assert(self@.items.take(i + 1).last() == self.items@[i as int]@);
            if same_text(self.items[i].thread_id.as_str(), thread) {
                len = len + 1;
            }
        }
        assert(self@.items.take(self@.items.len() as int) =~= self@.items);
        len
    }

    fn last_queue_order(&self, thread: &str) -> (order: Option<i64>)
        ensures
            order == last_order(self@.items, thread@),
    {
        let mut order: Option<i64> = None;
        for i in 0..self.items.len()
            invariant
                order == last_order(self@.items.take(i as int), thread@),
        {
            assert(self@.items.take(i + 1).drop_last() =~= self@.items.take(i as int));
            assert(self@.items.take(i + 1).last() == self.items@[i as int]@);
            let item = &self.items[i];
            let higher = match order {
                Some(highest) => highest < item.queue_order,
                None => true,
            };
            if same_text(item.thread_id.as_str(), thread) && higher {
                order = Some(item.queue_order);
            }
        }
        assert(self@.items.take(self@.items.len() as int) =~= self@.items);
        order
    }

    fn is_in_use(&self, id: &str) -> (used: bool)
        ensures
            used == self@.uses(id@),
    {
        for i in 0..self.items.len()
            invariant
                forall|k: int| k < i ==> !self@.holds_item(id@, k),
        {
            assert(self@.items[i as int] == self.items@[i as int]@);
            if same_text(self.items[i].id.as_str(), id) {
                assert(self@.holds_item(id@, i as int));
                return true;
            }
        }
        for i in 0..self.receipts.len()
            invariant
                forall|k: int| !self@.holds_item(id@, k),
                forall|k: int| 0 <= k < i ==> self@.receipts[k].queued_item_id != id@,
        {
            assert(self@.receipts[i as int] == self.receipts@[i as int]@);
            if same_text(self.receipts[i].queued_item_id.as_str(), id) {
                assert(self@.receipts[i as int].queued_item_id == id@);
                return true;
            }
        }
        false
    }

    /// Enqueues an origin, once: a repetition is answered with the receipt that is there. The
    /// receipt outlives its item. A new item is named by a fresh UUID of version seven.
    pub fn enqueue_voice(
        &mut self,
        thread_id: ThreadId,
        payload_json: &str,
        origin: &VoiceQueueOrigin,
    ) -> (outcome: Result<VoiceEnqueueOutcome, VoiceQueueError>)
        requires
            old(self).wf(),
        ensures
            final(self).wf(),
            final(self).saved() == old(self).saved(),
            exists|uuid: u128, now: i64|
                {
                    &&& (uuid >> 76u128) & 0xf == 7
                    &&& (uuid >> 62u128) & 0x3 == 2
                    &&& (final(self)@, enqueue_result(outcome)) == #[trigger] old(self)@.enqueue(
                        uuid_text(thread_id.uuid),
                        payload_json@,
                        origin@,
                        json_text_at(payload_json@, "/UserInput/client_id"@),
                        uuid_text(uuid),
                        now,
                    )
                },
    {
        let client = json_string_at(payload_json, "/UserInput/client_id");
        let uuid: u128 = fresh_uuid();
        let now: i64 = now_millis();
        let outcome = self.enqueue_voice_as(
            thread_id,
            payload_json,
            origin,
            client,
            uuid_to_text(uuid),
            now,
        );
        assert((self@, enqueue_result(outcome)) == old(self)@.enqueue(
            uuid_text(thread_id.uuid),
            payload_json@,
            origin@,
            json_text_at(payload_json@, "/UserInput/client_id"@),
            uuid_text(uuid),
            now,
        ));
        outcome
    }

    /// Enqueues an origin, given the client identity that the payload names, the identity of a
    /// new item and the time.
    pub fn enqueue_voice_as(
        &mut self,
        thread_id: ThreadId,
        payload_json: &str,
        origin: &VoiceQueueOrigin,
        client_id: Result<Option<String>, String>,
        queued_item_id: String,
        now_ms: i64,
    ) -> (outcome: Result<VoiceEnqueueOutcome, VoiceQueueError>)
        requires
            old(self).wf(),
        ensures
            final(self).wf(),
            final(self).saved() == old(self).saved(),
            (final(self)@, enqueue_result(outcome)) == old(self)@.enqueue(
                uuid_text(thread_id.uuid),
                payload_json@,
                origin@,
                client_result(client_id),
                queued_item_id@,
                now_ms,
            ),
    {
        if origin.origin_id.as_str().is_empty() {
            return Err(VoiceQueueError::Refused(Refusal::EmptyOrigin));
        }
        if is_blank(origin.native_session_id.as_str()) {
            return Err(VoiceQueueError::Refused(Refusal::EmptyNativeSession));
        }
        if origin.voice_session_generation == 0 {
            return Err(VoiceQueueError::Refused(Refusal::InvalidGeneration));
        }
        let matches_origin = match client_id {
            Ok(Some(client)) => same_text(client.as_str(), origin.origin_id.as_str()),
            Ok(None) => false,
            Err(message) => {
                return Err(VoiceQueueError::InvalidPayload { message });
            },
        };
        if !matches_origin {
            return Err(VoiceQueueError::Refused(Refusal::ClientMismatch));
        }
        if origin.voice_session_generation > i64::MAX as u64 {
            return Err(VoiceQueueError::Refused(Refusal::IntegerOutOfRange));
        }
        let thread = thread_id.to_string();
        let known = self.find_origin(thread.as_str(), origin.origin_id.as_str());
        let row = match known {
            Some(i) => {
                assert(self@.receipts[i as int] == self.receipts@[i as int]@);
                self.receipts[i].clone()
            },
            None => VoiceReceiptRow {
                thread_id: thread.clone(),
                origin_id: origin.origin_id.clone(),
                native_session_id: Some(origin.native_session_id.clone()),
                voice_session_generation: origin.voice_session_generation as i64,
                handoff_id: origin.handoff_id.clone(),
                item_id: origin.item_id.clone(),
                queued_item_id: queued_item_id.clone(),
                client_id: origin.origin_id.clone(),
                payload_json: payload_json.to_owned(),
                input_digest: None,
                admission_result: "Queued".to_owned(),
                attempt_id: None,
                turn_id: None,
                reason: None,
            },
        };
        let receipt = match read_receipt(&row) {
            Ok(receipt) => receipt,
            Err(error) => {
                return Err(error);
            },
        };
        if !agrees(&row, &receipt, payload_json, origin) {
            return Err(VoiceQueueError::Refused(Refusal::OriginConflict));
        }
        if known.is_some() {
            return Ok(VoiceEnqueueOutcome::Existing(receipt));
        }
        if self.max_queue_items as u64 > i64::MAX as u64 {
            return Err(VoiceQueueError::Refused(Refusal::IntegerOutOfRange));
        }
        if self.queue_len(thread.as_str()) >= self.max_queue_items {
            return Err(VoiceQueueError::Refused(Refusal::QueueFull));
        }
        let queue_order: i64 = match self.last_queue_order(thread.as_str()) {
            Some(order) => {
                if order == i64::MAX {
                    return Err(VoiceQueueError::Refused(Refusal::OrderExhausted));
                }
                order + 1
            },
            None => 0,
        };
        if self.is_in_use(queued_item_id.as_str()) {
            return Err(VoiceQueueError::Refused(Refusal::ItemIdInUse));
        }
        let item = QueuedItemRow {
            id: queued_item_id,
            thread_id: thread,
            payload_json: payload_json.to_owned(),
            queue_order,
            created_at_ms: now_ms,
            updated_at_ms: now_ms,
        };
        let ghost before = self@;
        let ghost new_row = row@;
        let ghost new_item = item@;
        let ghost writes = self.writes@;
        self.writes.push(TableWrite::InsertReceipt(row.clone()));
        assert(self.writes@.drop_last() =~= writes);
        let ghost with_receipt = self.writes@;
        self.writes.push(TableWrite::InsertItem(item.clone()));
        assert(self.writes@.drop_last() =~= with_receipt);
        self.receipts.push(row);
        self.items.push(item);
        assert(self@.receipts =~= before.receipts.push(new_row));
        assert(self@.items =~= before.items.push(new_item));
        proof {
            let received = before.written(WriteModel::InsertReceipt(new_row));
            assert(self.saved().written_all(with_receipt) == received);
            assert(self@ =~= received.written(WriteModel::InsertItem(new_item)));
            lemma_push_keeps_wf(before, new_row, new_item);
        }
        Ok(VoiceEnqueueOutcome::Inserted(receipt))
    }
}

/// A client identity that was looked up, taken by its model.
pub open spec fn client_result(client: Result<Option<String>, String>) -> Result<
    Option<Seq<char>>,
    Seq<char>,
> {
    match client {
        Ok(client) => Ok(opt_text(client)),
        Err(message) => Err(message@),
    }
}

fn agrees(
    row: &VoiceReceiptRow,
    receipt: &VoiceAdmissionReceipt,
    payload_json: &str,
    origin: &VoiceQueueOrigin,
) -> (same: bool)
    ensures
        same == StoreModel::agrees(row@, receipt@, payload_json@, origin@),
{
    same_text(row.payload_json.as_str(), payload_json) && same_text(
        receipt.native_session_id.as_str(),
        origin.native_session_id.as_str(),
    ) && receipt.voice_session_generation == origin.voice_session_generation && same_opt_text(
        &receipt.handoff_id,
        &origin.handoff_id,
    ) && same_opt_text(&receipt.item_id, &origin.item_id)
}

fn is_claim_of(row: &VoiceReceiptRow, attempt_id: &str) -> (claimed: bool)
    ensures
        claimed == StoreModel::is_claim_of(row@, attempt_id@),
{
    let present = match &row.native_session_id {
        Some(id) => is_sql_present(id.as_str()),
        None => false,
    };
    let same_attempt = match &row.attempt_id {
        Some(attempt) => same_text(attempt.as_str(), attempt_id),
        None => false,
    };
    same_text(row.admission_result.as_str(), "Claimed") && same_attempt && present
}

fn is_reconcilable(
    row: &VoiceReceiptRow,
    native_session_id: &str,
    client_id: &str,
    turn_id: &str,
) -> (reconcilable: bool)
    ensures
        reconcilable == StoreModel::is_reconcilable(
            row@,
            native_session_id@,
            client_id@,
            turn_id@,
        ),
{
    let same_session = match &row.native_session_id {
        Some(id) => same_text(id.as_str(), native_session_id),
        None => false,
    };
    let same_turn = match &row.turn_id {
        Some(turn) => same_text(turn.as_str(), turn_id),
        None => false,
    };
    let state = row.admission_result.as_str();
    same_session && same_text(row.client_id.as_str(), client_id) && is_sql_present(
        native_session_id,
    ) && (same_text(state, "Claimed") || same_text(state, "Ambiguous") || (same_text(
        state,
        "Started",
    ) && same_turn))
}

} // verus!
