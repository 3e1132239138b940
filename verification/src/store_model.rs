//! The two tables of the durable queue, and what each request makes of them.

use vstd::prelude::*;
use crate::receipt::{
    row_error_text, ClaimOutcomeModel, EnqueueOutcomeModel, ItemRowModel, QueueOriginModel,
    QueuedItemRow, ReceiptModel, ReceiptRowModel, RowError, VoiceReceiptRow,
};
use crate::text::blank;

verus! {

/// Why a request is refused.
#[derive(Clone, Copy, Debug, PartialEq, Eq, Structural)]
pub enum Refusal {
    EmptyOrigin,
    EmptyNativeSession,
    InvalidGeneration,
    ClientMismatch,
    IntegerOutOfRange,
    OriginConflict,
    QueueFull,
    OrderExhausted,
    ItemIdInUse,
    EmptyAttempt,
    EmptyTurn,
    ClaimMismatch,
    ReconciliationClientMismatch,
    NotReconcilable,
}

/// What a refusal says.
pub open spec fn refusal_text(refusal: Refusal) -> Seq<char> {
    match refusal {
        Refusal::EmptyOrigin => "voice origin id is empty"@,
        Refusal::EmptyNativeSession => "native session id is empty"@,
        Refusal::InvalidGeneration => "invalid voice generation"@,
        Refusal::ClientMismatch => "voice input client id does not match origin"@,
        Refusal::IntegerOutOfRange => "out of range integral type conversion attempted"@,
        Refusal::OriginConflict => "voice origin conflict"@,
        Refusal::QueueFull => "voice queue is full"@,
        Refusal::OrderExhausted => "voice queue order is exhausted"@,
        Refusal::ItemIdInUse => "queued item id is in use"@,
        Refusal::EmptyAttempt => "voice attempt id is empty"@,
        Refusal::EmptyTurn => "voice turn id is empty"@,
        Refusal::ClaimMismatch => "voice claim no longer matches"@,
        Refusal::ReconciliationClientMismatch => "voice reconciliation client id mismatch"@,
        Refusal::NotReconcilable => "voice receipt cannot be reconciled"@,
    }
}

impl Refusal {
    pub fn message(self) -> (message: &'static str)
        ensures
            message@ == refusal_text(self),
    {
        match self {
            Refusal::EmptyOrigin => "voice origin id is empty",
            Refusal::EmptyNativeSession => "native session id is empty",
            Refusal::InvalidGeneration => "invalid voice generation",
            Refusal::ClientMismatch => "voice input client id does not match origin",
            Refusal::IntegerOutOfRange => "out of range integral type conversion attempted",
            Refusal::OriginConflict => "voice origin conflict",
            Refusal::QueueFull => "voice queue is full",
            Refusal::OrderExhausted => "voice queue order is exhausted",
            Refusal::ItemIdInUse => "queued item id is in use",
            Refusal::EmptyAttempt => "voice attempt id is empty",
            Refusal::EmptyTurn => "voice turn id is empty",
            Refusal::ClaimMismatch => "voice claim no longer matches",
            Refusal::ReconciliationClientMismatch => "voice reconciliation client id mismatch",
            Refusal::NotReconcilable => "voice receipt cannot be reconciled",
        }
    }
}

/// Why a request failed: it was refused, its payload is not JSON, or a row cannot be read.
#[derive(Clone, Debug, PartialEq, Eq)]
pub enum VoiceQueueError {
    Refused(Refusal),
    InvalidPayload { message: String },
    Row(RowError),
}

/// What a [`VoiceQueueError`] stands for.
pub enum QueueErrorModel {
    Refused(Refusal),
    InvalidPayload(Seq<char>),
    Row(RowError),
}

impl View for VoiceQueueError {
    type V = QueueErrorModel;

    open spec fn view(&self) -> QueueErrorModel {
        match *self {
            VoiceQueueError::Refused(refusal) => QueueErrorModel::Refused(refusal),
            VoiceQueueError::InvalidPayload { message } => QueueErrorModel::InvalidPayload(
                message@,
            ),
            VoiceQueueError::Row(error) => QueueErrorModel::Row(error),
        }
    }
}

/// What a failure says.
pub open spec fn error_text(error: QueueErrorModel) -> Seq<char> {
    match error {
        QueueErrorModel::Refused(refusal) => refusal_text(refusal),
        QueueErrorModel::InvalidPayload(message) => message,
        QueueErrorModel::Row(error) => row_error_text(error),
    }
}

impl VoiceQueueError {
    pub fn message(&self) -> (message: String)
        ensures
            message@ == error_text(self@),
    {
        match self {
            VoiceQueueError::Refused(refusal) => refusal.message().to_owned(),
            VoiceQueueError::InvalidPayload { message } => message.clone(),
            VoiceQueueError::Row(error) => error.message().to_owned(),
        }
    }
}

/// Whether the store counts a native session as present: what `length(trim(..)) > 0` tests in
/// SQLite, which trims spaces alone and measures up to the first NUL.
pub open spec fn sql_present(id: Seq<char>) -> bool {
    exists|i: int| first_visible(id, i)
}

/// At `i` stands the first character that is no space, and it is not NUL.
pub open spec fn first_visible(id: Seq<char>, i: int) -> bool {
    &&& 0 <= i < id.len()
    &&& id[i] != ' '
    &&& id[i] != '\0'
    &&& forall|j: int| 0 <= j < i ==> id[j] == ' '
}

/// The two tables of the store, and how many items a thread may queue.
#[verifier::ext_equal]
pub struct StoreModel {
    pub max_queue_items: usize,
    pub receipts: Seq<ReceiptRowModel>,
    pub items: Seq<ItemRowModel>,
}

/// How many of the items belong to a thread.
pub open spec fn queued(items: Seq<ItemRowModel>, thread: Seq<char>) -> nat
    decreases items.len(),
{
    if items.len() == 0 {
        0
    } else {
        queued(items.drop_last(), thread) + if items.last().thread_id == thread {
            1nat
        } else {
            0nat
        }
    }
}

/// The highest order among the items of a thread.
pub open spec fn last_order(items: Seq<ItemRowModel>, thread: Seq<char>) -> Option<i64>
    decreases items.len(),
{
    if items.len() == 0 {
        None
    } else {
        let before = last_order(items.drop_last(), thread);
        let last = items.last();
        if last.thread_id == thread && (before is None || before->0 < last.queue_order) {
            Some(last.queue_order)
        } else {
            before
        }
    }
}

impl StoreModel {
    /// An origin has one receipt in a thread, a queued item has one receipt in a thread, and an
    /// identity names one item.
    pub open spec fn wf(self) -> bool {
        self.receipts_wf() && self.items_wf()
    }

    pub open spec fn receipts_wf(self) -> bool {
        forall|i: int, j: int|
            0 <= i < j < self.receipts.len() ==> !Self::same_receipt_key(
                #[trigger] self.receipts[i],
                #[trigger] self.receipts[j],
            )
    }

    pub open spec fn items_wf(self) -> bool {
        forall|i: int, j: int|
            0 <= i < j < self.items.len() ==> #[trigger] self.items[i].id
                != #[trigger] self.items[j].id
    }

    /// Whether two receipts of one thread clash over their origin or over their item.
    pub open spec fn same_receipt_key(a: ReceiptRowModel, b: ReceiptRowModel) -> bool {
        a.thread_id == b.thread_id && (a.origin_id == b.origin_id || a.queued_item_id
            == b.queued_item_id)
    }

    /// Row `i` is the receipt of an origin.
    pub open spec fn holds_origin(self, thread: Seq<char>, origin: Seq<char>, i: int) -> bool {
        &&& 0 <= i < self.receipts.len()
        &&& self.receipts[i].thread_id == thread
        &&& self.receipts[i].origin_id == origin
    }

    /// Row `i` is the receipt of a queued item.
    pub open spec fn holds_receipt(self, thread: Seq<char>, item: Seq<char>, i: int) -> bool {
        &&& 0 <= i < self.receipts.len()
        &&& self.receipts[i].thread_id == thread
        &&& self.receipts[i].queued_item_id == item
    }

    /// Row `i` is the queued item of that identity.
    pub open spec fn holds_item(self, id: Seq<char>, i: int) -> bool {
        0 <= i < self.items.len() && self.items[i].id == id
    }

    /// Where the receipt of an origin stands.
    pub open spec fn of_origin(self, thread: Seq<char>, origin: Seq<char>) -> Option<int> {
        if exists|i: int| self.holds_origin(thread, origin, i) {
            Some(choose|i: int| self.holds_origin(thread, origin, i))
        } else {
            None
        }
    }

    /// Where the receipt of a queued item stands.
    pub open spec fn of_item(self, thread: Seq<char>, item: Seq<char>) -> Option<int> {
        if exists|i: int| self.holds_receipt(thread, item, i) {
            Some(choose|i: int| self.holds_receipt(thread, item, i))
        } else {
            None
        }
    }

    /// In a well-formed store the row that holds an origin is where it is looked for.
    pub proof fn lemma_of_origin(self, thread: Seq<char>, origin: Seq<char>, i: int)
        requires
            self.wf(),
            self.holds_origin(thread, origin, i),
        ensures
            self.of_origin(thread, origin) == Some(i),
    {
        let at = choose|k: int| self.holds_origin(thread, origin, k);
        assert(self.holds_origin(thread, origin, at));
        assert(Self::same_receipt_key(self.receipts[i], self.receipts[at]));
        assert(Self::same_receipt_key(self.receipts[at], self.receipts[i]));
    }

    /// In a well-formed store the row that holds the receipt of an item is where it is looked
    /// for.
    pub proof fn lemma_of_item(self, thread: Seq<char>, item: Seq<char>, i: int)
        requires
            self.wf(),
            self.holds_receipt(thread, item, i),
        ensures
            self.of_item(thread, item) == Some(i),
    {
        let at = choose|k: int| self.holds_receipt(thread, item, k);
        assert(self.holds_receipt(thread, item, at));
        assert(Self::same_receipt_key(self.receipts[i], self.receipts[at]));
        assert(Self::same_receipt_key(self.receipts[at], self.receipts[i]));
    }

    /// Whether row `i` is a claim of that thread that has no known end.
    pub open spec fn blocks(self, thread: Seq<char>, i: int) -> bool {
        &&& 0 <= i < self.receipts.len()
        &&& self.receipts[i].thread_id == thread
        &&& self.receipts[i].admission_result == "Claimed"@ || self.receipts[i].admission_result
            == "Ambiguous"@
    }

    /// Whether item `i` is what a receipt was issued for.
    pub open spec fn backs(self, row: ReceiptRowModel, i: int) -> bool {
        &&& self.holds_item(row.queued_item_id, i)
        &&& self.items[i].thread_id == row.thread_id
        &&& self.items[i].payload_json == row.payload_json
    }

    /// Whether a receipt may be claimed: it is queued under a known session, its item is still
    /// there unchanged, and no claim of the thread is open.
    pub open spec fn claimable(self, row: ReceiptRowModel) -> bool {
        &&& row.admission_result == "Queued"@
        &&& row.native_session_id is Some
        &&& sql_present(row.native_session_id->0)
        &&& exists|i: int| self.backs(row, i)
        &&& forall|i: int| !self.blocks(row.thread_id, i)
    }

    pub open spec fn with_receipt(self, i: int, row: ReceiptRowModel) -> StoreModel {
        StoreModel { receipts: self.receipts.update(i, row), ..self }
    }

    /// The store without an item of a thread.
    pub open spec fn without_item(self, thread: Seq<char>, id: Seq<char>) -> StoreModel {
        if exists|i: int| self.holds_item(id, i) && self.items[i].thread_id == thread {
            let i = choose|i: int| self.holds_item(id, i) && self.items[i].thread_id == thread;
            StoreModel { items: self.items.remove(i), ..self }
        } else {
            self
        }
    }

    /// The receipt that a row holds, where a row was found.
    pub open spec fn receipt_of(self, row: Option<int>) -> Result<
        Option<ReceiptModel>,
        QueueErrorModel,
    > {
        match row {
            None => Ok(None),
            Some(i) => match self.receipts[i].receipt() {
                Ok(receipt) => Ok(Some(receipt)),
                Err(error) => Err(QueueErrorModel::Row(error)),
            },
        }
    }

    /// Whether the row holds just what an origin is enqueued with.
    pub open spec fn agrees(
        row: ReceiptRowModel,
        receipt: ReceiptModel,
        payload: Seq<char>,
        origin: QueueOriginModel,
    ) -> bool {
        &&& row.payload_json == payload
        &&& receipt.native_session_id == origin.native_session_id
        &&& receipt.voice_session_generation == origin.voice_session_generation
        &&& receipt.handoff_id == origin.handoff_id
        &&& receipt.item_id == origin.item_id
    }

    /// The receipt that a new origin is given.
    pub open spec fn new_receipt(
        thread: Seq<char>,
        payload: Seq<char>,
        origin: QueueOriginModel,
        id: Seq<char>,
    ) -> ReceiptRowModel {
        ReceiptRowModel {
            thread_id: thread,
            origin_id: origin.origin_id,
            native_session_id: Some(origin.native_session_id),
            voice_session_generation: origin.voice_session_generation as i64,
            handoff_id: origin.handoff_id,
            item_id: origin.item_id,
            queued_item_id: id,
            client_id: origin.origin_id,
            payload_json: payload,
            input_digest: None,
            admission_result: "Queued"@,
            attempt_id: None,
            turn_id: None,
            reason: None,
        }
    }

    /// Whether an identity is in use, by an item or by the receipt of one.
    pub open spec fn uses(self, id: Seq<char>) -> bool {
        ||| exists|i: int| self.holds_item(id, i)
        ||| exists|i: int| 0 <= i < self.receipts.len() && #[trigger] self.receipts[i].queued_item_id
            == id
    }

    /// What the request itself is refused for, before the store is looked at.
    pub open spec fn enqueue_refusal(
        origin: QueueOriginModel,
        client: Result<Option<Seq<char>>, Seq<char>>,
    ) -> Option<QueueErrorModel> {
        if origin.origin_id.len() == 0 {
            Some(QueueErrorModel::Refused(Refusal::EmptyOrigin))
        } else if blank(origin.native_session_id) {
            Some(QueueErrorModel::Refused(Refusal::EmptyNativeSession))
        } else if origin.voice_session_generation == 0 {
            Some(QueueErrorModel::Refused(Refusal::InvalidGeneration))
        } else if client is Err {
            Some(QueueErrorModel::InvalidPayload(client->Err_0))
        } else if client->Ok_0 != Some(origin.origin_id) {
            Some(QueueErrorModel::Refused(Refusal::ClientMismatch))
        } else if origin.voice_session_generation > i64::MAX {
            Some(QueueErrorModel::Refused(Refusal::IntegerOutOfRange))
        } else {
            None
        }
    }

    /// Why there is no room for a new item of a thread.
    pub open spec fn room_refusal(self, thread: Seq<char>, id: Seq<char>) -> Option<Refusal> {
        if self.max_queue_items > i64::MAX {
            Some(Refusal::IntegerOutOfRange)
        } else if queued(self.items, thread) >= self.max_queue_items {
            Some(Refusal::QueueFull)
        } else if last_order(self.items, thread) == Some(i64::MAX) {
            Some(Refusal::OrderExhausted)
        } else if self.uses(id) {
            Some(Refusal::ItemIdInUse)
        } else {
            None
        }
    }

    /// Where a new item of a thread is queued: behind all others.
    pub open spec fn next_order(self, thread: Seq<char>) -> int {
        match last_order(self.items, thread) {
            Some(order) => order + 1,
            None => 0,
        }
    }

    /// What comes of enqueueing an origin, once. `client` is the client identity that the payload
    /// names, `id` the identity that a new item is given, `now` the time.
    pub open spec fn enqueue(
        self,
        thread: Seq<char>,
        payload: Seq<char>,
        origin: QueueOriginModel,
        client: Result<Option<Seq<char>>, Seq<char>>,
        id: Seq<char>,
        now: i64,
    ) -> (StoreModel, Result<EnqueueOutcomeModel, QueueErrorModel>) {
        let known = self.of_origin(thread, origin.origin_id);
        let row = match known {
            Some(i) => self.receipts[i],
            None => Self::new_receipt(thread, payload, origin, id),
        };
        if Self::enqueue_refusal(origin, client) is Some {
            (self, Err(Self::enqueue_refusal(origin, client)->0))
        } else {
            match row.receipt() {
                Err(error) => (self, Err(QueueErrorModel::Row(error))),
                Ok(receipt) => if !Self::agrees(row, receipt, payload, origin) {
                    (self, Err(QueueErrorModel::Refused(Refusal::OriginConflict)))
                } else if known is Some {
                    (self, Ok(EnqueueOutcomeModel::Existing(receipt)))
                } else if self.room_refusal(thread, id) is Some {
                    (self, Err(QueueErrorModel::Refused(self.room_refusal(thread, id)->0)))
                } else {
                    let item = ItemRowModel {
                        id,
                        thread_id: thread,
                        payload_json: payload,
                        queue_order: self.next_order(thread) as i64,
                        created_at_ms: now,
                        updated_at_ms: now,
                    };
                    (
                        StoreModel {
                            receipts: self.receipts.push(row),
                            items: self.items.push(item),
                            ..self
                        },
                        Ok(EnqueueOutcomeModel::Inserted(receipt)),
                    )
                },
            }
        }
    }

    /// What comes of claiming a queued item. The claim stands even where its receipt cannot be
    /// read.
    pub open spec fn claim(self, thread: Seq<char>, item: Seq<char>, attempt: Seq<char>) -> (
        StoreModel,
        Result<Option<ReceiptModel>, QueueErrorModel>,
    ) {
        let at = self.of_item(thread, item);
        if attempt.len() == 0 {
            (self, Err(QueueErrorModel::Refused(Refusal::EmptyAttempt)))
        } else if at is None || !self.claimable(self.receipts[at->0]) {
            (self, Ok(None))
        } else {
            let claimed = ReceiptRowModel {
                admission_result: "Claimed"@,
                attempt_id: Some(attempt),
                reason: None,
                ..self.receipts[at->0]
            };
            let next = self.with_receipt(at->0, claimed);
            (next, next.receipt_of(at))
        }
    }

    /// A claimed row once the claim has come to its end.
    pub open spec fn finished(row: ReceiptRowModel, outcome: ClaimOutcomeModel) -> ReceiptRowModel {
        match outcome {
            ClaimOutcomeModel::Started { turn_id } => ReceiptRowModel {
                admission_result: "Started"@,
                turn_id: Some(turn_id),
                reason: None,
                ..row
            },
            ClaimOutcomeModel::RetryableRejection { reason } => ReceiptRowModel {
                admission_result: "Queued"@,
                turn_id: None,
                reason: Some(reason),
                attempt_id: None,
                ..row
            },
            ClaimOutcomeModel::Rejected { reason } => ReceiptRowModel {
                admission_result: "Rejected"@,
                turn_id: None,
                reason: Some(reason),
                ..row
            },
            ClaimOutcomeModel::Ambiguous { reason } => ReceiptRowModel {
                admission_result: "Ambiguous"@,
                turn_id: None,
                reason: Some(reason),
                ..row
            },
        }
    }

    /// Whether a row is the open claim of an attempt.
    pub open spec fn is_claim_of(row: ReceiptRowModel, attempt: Seq<char>) -> bool {
        &&& row.admission_result == "Claimed"@
        &&& row.attempt_id == Some(attempt)
        &&& row.native_session_id is Some
        &&& sql_present(row.native_session_id->0)
    }

    /// What comes of recording how a claim ended. A started or rejected item leaves the queue.
    pub open spec fn finish(
        self,
        thread: Seq<char>,
        item: Seq<char>,
        attempt: Seq<char>,
        outcome: ClaimOutcomeModel,
    ) -> (StoreModel, Result<ReceiptModel, QueueErrorModel>) {
        let at = self.of_item(thread, item);
        if outcome matches ClaimOutcomeModel::Started { turn_id } && turn_id.len() == 0 {
            (self, Err(QueueErrorModel::Refused(Refusal::EmptyTurn)))
        } else if at is None || !Self::is_claim_of(self.receipts[at->0], attempt) {
            (self, Err(QueueErrorModel::Refused(Refusal::ClaimMismatch)))
        } else {
            let row = Self::finished(self.receipts[at->0], outcome);
            match row.receipt() {
                Err(error) => (self, Err(QueueErrorModel::Row(error))),
                Ok(receipt) => {
                    let recorded = self.with_receipt(at->0, row);
                    (
                        if outcome is Started || outcome is Rejected {
                            recorded.without_item(thread, item)
                        } else {
                            recorded
                        },
                        Ok(receipt),
                    )
                },
            }
        }
    }

    /// Whether positive evidence that a turn started can settle a row.
    pub open spec fn is_reconcilable(
        row: ReceiptRowModel,
        native_session_id: Seq<char>,
        client: Seq<char>,
        turn: Seq<char>,
    ) -> bool {
        &&& row.native_session_id == Some(native_session_id)
        &&& row.client_id == client
        &&& sql_present(native_session_id)
        &&& {
            ||| row.admission_result == "Claimed"@
            ||| row.admission_result == "Ambiguous"@
            ||| row.admission_result == "Started"@ && row.turn_id == Some(turn)
        }
    }

    /// What comes of positive evidence that a turn started for an origin.
    pub open spec fn reconcile(
        self,
        thread: Seq<char>,
        native_session_id: Seq<char>,
        origin: Seq<char>,
        client: Seq<char>,
        turn: Seq<char>,
    ) -> (StoreModel, Result<ReceiptModel, QueueErrorModel>) {
        let at = self.of_origin(thread, origin);
        if turn.len() == 0 {
            (self, Err(QueueErrorModel::Refused(Refusal::EmptyTurn)))
        } else if client != origin {
            (self, Err(QueueErrorModel::Refused(Refusal::ReconciliationClientMismatch)))
        } else if blank(native_session_id) {
            (self, Err(QueueErrorModel::Refused(Refusal::EmptyNativeSession)))
        } else if at is None || !Self::is_reconcilable(
            self.receipts[at->0],
            native_session_id,
            client,
            turn,
        ) {
            (self, Err(QueueErrorModel::Refused(Refusal::NotReconcilable)))
        } else {
            let row = ReceiptRowModel {
                admission_result: "Started"@,
                turn_id: Some(turn),
                reason: None,
                ..self.receipts[at->0]
            };
            match row.receipt() {
                Err(error) => (self, Err(QueueErrorModel::Row(error))),
                Ok(receipt) => (
                    self.with_receipt(at->0, row).without_item(thread, row.queued_item_id),
                    Ok(receipt),
                ),
            }
        }
    }
}

/// A write that the tables have to be given.
#[derive(Debug, PartialEq, Eq)]
pub enum TableWrite {
    InsertReceipt(VoiceReceiptRow),
    /// Replaces the receipt of the same thread and origin.
    UpdateReceipt(VoiceReceiptRow),
    InsertItem(QueuedItemRow),
    DeleteItem { thread_id: String, id: String },
}

/// What a [`TableWrite`] stands for.
pub enum WriteModel {
    InsertReceipt(ReceiptRowModel),
    UpdateReceipt(ReceiptRowModel),
    InsertItem(ItemRowModel),
    DeleteItem { thread_id: Seq<char>, id: Seq<char> },
}

impl View for TableWrite {
    type V = WriteModel;

    open spec fn view(&self) -> WriteModel {
        match *self {
            TableWrite::InsertReceipt(row) => WriteModel::InsertReceipt(row@),
            TableWrite::UpdateReceipt(row) => WriteModel::UpdateReceipt(row@),
            TableWrite::InsertItem(row) => WriteModel::InsertItem(row@),
            TableWrite::DeleteItem { thread_id, id } => WriteModel::DeleteItem {
                thread_id: thread_id@,
                id: id@,
            },
        }
    }
}

impl StoreModel {
    /// The tables after one write.
    pub open spec fn written(self, write: WriteModel) -> StoreModel {
        match write {
            WriteModel::InsertReceipt(row) => StoreModel {
                receipts: self.receipts.push(row),
                ..self
            },
            WriteModel::UpdateReceipt(row) => match self.of_origin(row.thread_id, row.origin_id) {
                Some(i) => self.with_receipt(i, row),
                None => self,
            },
            WriteModel::InsertItem(row) => StoreModel { items: self.items.push(row), ..self },
            WriteModel::DeleteItem { thread_id, id } => self.without_item(thread_id, id),
        }
    }

    /// The tables after a series of writes, the first one first.
    pub open spec fn written_all(self, writes: Seq<TableWrite>) -> StoreModel
        decreases writes.len(),
    {
        if writes.len() == 0 {
            self
        } else {
            self.written_all(writes.drop_last()).written(writes.last()@)
        }
    }
}

/// A receipt of a new origin for a new item clashes with nothing.
pub proof fn lemma_push_keeps_wf(store: StoreModel, row: ReceiptRowModel, item: ItemRowModel)
    requires
        store.wf(),
        store.of_origin(row.thread_id, row.origin_id) is None,
        row.queued_item_id == item.id,
        !store.uses(item.id),
    ensures
        (StoreModel {
            receipts: store.receipts.push(row),
            items: store.items.push(item),
            ..store
        }).wf(),
{
    let next = StoreModel {
        receipts: store.receipts.push(row),
        items: store.items.push(item),
        ..store
    };
    assert forall|i: int, j: int|
        0 <= i < j < next.receipts.len() implies !StoreModel::same_receipt_key(
        #[trigger] next.receipts[i],
        #[trigger] next.receipts[j],
    ) by {
        assert(next.receipts[i] == store.receipts[i]);
        if j == store.receipts.len() {
            assert(!store.holds_origin(row.thread_id, row.origin_id, i));
        }
    }
    assert forall|i: int, j: int| 0 <= i < j < next.items.len() implies #[trigger] next.items[i].id
        != #[trigger] next.items[j].id by {
        if j == store.items.len() {
            assert(!store.holds_item(item.id, i));
        }
    }
}

} // verus!
