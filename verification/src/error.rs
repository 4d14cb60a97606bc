//! The error taxonomy of the client.
//!
//! Build-time validation failures are reported before any dispatch could
//! happen; the remaining classes mirror what a dispatcher can surface:
//! connectivity failures, non-success statuses from the service, and
//! response bodies of an unexpected shape.

use vstd::prelude::*;

verus! {

/// Every failure a client operation can report.
#[derive(Debug)]
pub enum ClientError {
    /// A mandatory field was empty when the request was finalized; the
    /// request was never dispatched.
    Build { field: String },
    /// The service could not be reached at all.
    Transport { message: String },
    /// The service answered with a non-success HTTP status.
    Status { code: u16, message: String },
    /// The response body did not match the expected shape.
    Decode { message: String },
}

impl ClientError {
    /// A missing-resource answer: the service reported status 404 for a
    /// named resource.
    pub open spec fn is_not_found(&self) -> bool {
        self matches ClientError::Status { code, .. } && code == 404
    }

    /// Whether this error reports a missing resource.
    pub fn not_found(&self) -> (r: bool)
        ensures
            r == self.is_not_found(),
    {
        match self {
            ClientError::Status { code, .. } => *code == 404,
            _ => false,
        }
    }
}

/// Law: a missing-resource error is never a transport failure; the two
/// classes are distinct variants and a caller can always tell them apart.
pub proof fn lemma_not_found_distinct_from_transport(e: ClientError)
    requires
        e.is_not_found(),
    ensures
        !(e matches ClientError::Transport { .. }),
        e matches ClientError::Status { code, .. } && code == 404,
{
}

} // verus!
