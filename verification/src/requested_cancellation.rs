//! Evidence that a cancellation was requested.

use tokio_util::sync::CancellationToken;
use vstd::prelude::*;

verus! {

/// A cancellation that has been requested. Its field is private and [`request`] is the only
/// function that makes one, so whoever holds one knows that the request was made; a request is
/// never taken back.
///
/// [`request`]: RequestedCancellation::request
#[derive(Debug)]
pub struct RequestedCancellation {
    token: CancellationToken,
}

impl RequestedCancellation {
    /// The cancellation that was requested.
    pub closed spec fn token(self) -> CancellationToken {
        self.token
    }

    /// `CancellationToken::cancel`: requests the cancellation behind the handle and wakes who
    /// waits for it. The value handed back is evidence of the request for that very cancellation.
    /// What the request does is state shared between handles, which no clause can speak of.
    #[verifier::external_body]
    pub(crate) fn request(token: CancellationToken) -> (requested: Self)
        ensures
            requested.token() == token,
    {
        token.cancel();
        RequestedCancellation { token }
    }

    /// A handle of the cancellation.
    pub fn handle(&self) -> (handle: CancellationToken)
        ensures
            handle == self.token(),
    {
        self.token.clone()
    }
}

} // verus!
