//! The failures that the client reports.

use vstd::prelude::*;

verus! {

/// Why a step of the client failed.
#[derive(Clone, Copy, Debug, PartialEq, Eq, Structural)]
pub enum DavError {
    /// The transport could not carry the request or bring back a response.
    Transport,
    /// The server answered with a status outside the success range where
    /// success was required; the status is kept.
    UnexpectedStatus(u16),
    /// The body is not well-formed XML, or a required element or text is
    /// missing from it.
    MalformedResponse,
    /// The contact could not be created because its id is already taken.
    PreconditionFailed,
}

} // verus!
