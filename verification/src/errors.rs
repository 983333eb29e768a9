//! The two failure classes a command invocation can end with.

use vstd::prelude::*;

verus! {

/// A fetch from a provider failed: the network was unreachable, the endpoint
/// answered with a non-success status, or the body could not be decoded.
/// Fatal for the current command invocation; never retried.
#[derive(Clone, Copy, Debug, PartialEq, Eq, Structural)]
pub enum FetchError {
    Unreachable,
    BadStatus,
    MalformedBody,
}

/// Why an interaction session ended with an error instead of running to its
/// idle timeout.
#[derive(Clone, Copy, Debug, PartialEq, Eq, Structural)]
pub enum RunError {
    /// The initial fetch failed; nothing was sent.
    Fetch(FetchError),
    /// A refresh fetch or a message edit failed after the first message was
    /// sent; the loop aborts silently.
    Transport,
}

} // verus!
