//! Cancellation of the output of a turn.

use tokio_util::sync::CancellationToken;
use vstd::prelude::*;
use crate::requested_cancellation::RequestedCancellation;

verus! {

/// A handle of a cancellation. Two handles are equal when they control the same cancellation.
#[verifier::external_type_specification]
#[verifier::external_body]
pub struct ExCancellationToken(CancellationToken);

/// `CancellationToken::clone`: another handle of the same cancellation.
pub assume_specification[ <CancellationToken as Clone>::clone ](
    token: &CancellationToken,
) -> (copy: CancellationToken)
    ensures
        copy == *token,
;

/// The cancellation of one turn's output: open, or requested with the evidence of it.
#[derive(Debug)]
pub enum OutputCancellation {
    Open(CancellationToken),
    Requested(RequestedCancellation),
}

impl OutputCancellation {
    /// The cancellation that the handles control.
    pub open spec fn token(self) -> CancellationToken {
        match self {
            OutputCancellation::Open(token) => token,
            OutputCancellation::Requested(requested) => requested.token(),
        }
    }

    /// Whether the cancellation has been requested: there is evidence that it was.
    pub open spec fn requested(self) -> bool {
        self is Requested
    }

    /// The cancellation behind a new handle, without a request.
    pub fn new(token: CancellationToken) -> (cancellation: Self)
        ensures
            !cancellation.requested(),
            cancellation.token() == token,
    {
        OutputCancellation::Open(token)
    }

    /// Requests the cancellation, unless that was done before.
    pub fn cancel(&mut self)
        ensures
            final(self).requested(),
            final(self).token() == old(self).token(),
    {
        let token = match self {
            OutputCancellation::Open(token) => token.clone(),
            OutputCancellation::Requested(_) => {
                return;
            },
        };
        *self = OutputCancellation::Requested(RequestedCancellation::request(token));
    }

    /// A handle for the writer of the output.
    pub fn handle(&self) -> (handle: CancellationToken)
        ensures
            handle == self.token(),
    {
        match self {
            OutputCancellation::Open(token) => token.clone(),
            OutputCancellation::Requested(requested) => requested.handle(),
        }
    }
}

} // verus!
