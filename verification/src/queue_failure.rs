//! How failures of the queue's storage are told to its callers.

use vstd::prelude::*;
use vstd::string::*;
use crate::json::{decimal, digit};

verus! {

/// Why a thread's store could not serve a request.
#[derive(Clone, Debug, PartialEq, Eq)]
pub enum ThreadStoreError {
    InvalidRequest { message: String },
    Internal { message: String },
}

/// What a [`ThreadStoreError`] stands for.
pub enum StoreErrorModel {
    InvalidRequest(Seq<char>),
    Internal(Seq<char>),
}

impl View for ThreadStoreError {
    type V = StoreErrorModel;

    open spec fn view(&self) -> StoreErrorModel {
        match *self {
            ThreadStoreError::InvalidRequest { message } => StoreErrorModel::InvalidRequest(
                message@,
            ),
            ThreadStoreError::Internal { message } => StoreErrorModel::Internal(message@),
        }
    }
}

/// What a store answers that cannot admit voice.
pub fn voice_unavailable() -> (error: ThreadStoreError)
    ensures
        error@ == StoreErrorModel::InvalidRequest("durable voice admission is unavailable"@),
{
    ThreadStoreError::InvalidRequest {
        message: "durable voice admission is unavailable".to_owned(),
    }
}

/// A failure of the storage itself.
pub fn storage_failure(error: &str) -> (failure: ThreadStoreError)
    ensures
        failure@ == StoreErrorModel::Internal("queue storage failed: "@ + error@),
{
    let mut message = "queue storage failed: ".to_owned();
    message.append(error);
    ThreadStoreError::Internal { message }
}

fn digit_text(value: u64) -> (text: &'static str)
    requires
        value < 10,
    ensures
        text@ == seq![digit(value as int)],
{
    proof {
        reveal_strlit("0");
        reveal_strlit("1");
        reveal_strlit("2");
        reveal_strlit("3");
        reveal_strlit("4");
        reveal_strlit("5");
        reveal_strlit("6");
        reveal_strlit("7");
        reveal_strlit("8");
        reveal_strlit("9");
    }
    match value {
        0 => "0",
        1 => "1",
        2 => "2",
        3 => "3",
        4 => "4",
        5 => "5",
        6 => "6",
        7 => "7",
        8 => "8",
        _ => "9",
    }
}

fn decimal_text(value: u64) -> (text: String)
    ensures
        text@ == decimal(value as nat),
    decreases value,
{
    if value < 10 {
        digit_text(value).to_owned()
    } else {
        let mut text = decimal_text(value / 10);
        text.append(digit_text(value % 10));
        assert(text@ =~= decimal((value / 10) as nat).push(digit((value % 10) as int)));
        text
    }
}

/// Why a submission could not be enqueued: the storage has no row to return where the queue of
/// the thread is full.
pub fn enqueue_failure(no_row: bool, error: &str, max_queue_items: usize) -> (failure:
    ThreadStoreError)
    ensures
        failure@ == if no_row {
            StoreErrorModel::InvalidRequest(
                "queue cannot contain more than "@ + decimal(max_queue_items as nat)
                    + " submissions"@,
            )
        } else {
            StoreErrorModel::Internal("queue storage failed: "@ + error@)
        },
{
    if no_row {
        let mut message = "queue cannot contain more than ".to_owned();
        message.append(decimal_text(max_queue_items as u64).as_str());
        message.append(" submissions");
        ThreadStoreError::InvalidRequest { message }
    } else {
        storage_failure(error)
    }
}

/// Why a queue could not be reordered: `rejection` says what is wrong with the request, where it
/// is the request that is at fault.
pub fn reorder_failure(rejection: Option<String>, error: &str) -> (failure: ThreadStoreError)
    ensures
        failure@ == match rejection {
            Some(message) => StoreErrorModel::InvalidRequest(message@),
            None => StoreErrorModel::Internal("queue storage failed: "@ + error@),
        },
{
    match rejection {
        Some(message) => ThreadStoreError::InvalidRequest { message },
        None => storage_failure(error),
    }
}

} // verus!
