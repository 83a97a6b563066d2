//! Error taxonomy of the login pipeline.
//!
//! Every stage returns a typed outcome; a failure always carries the kind that
//! tells the caller how to react and the diagnostic text that the server or
//! the parser produced.

use vstd::prelude::*;
use vstd::string::*;

verus! {

/// How a failed round is to be treated by the caller.
///
/// `NetworkError` is a transport failure, terminal for the round but freely
/// retryable. `ParseError` means the response shape violated the expected
/// schema. `HipRequired` is the host-compliance policy gate: the caller must
/// submit a compliance report externally before retrying. `AuthFailed`
/// carries a textual failure reported by the server. `Other` is the fallback
/// for unrecognized failures.
#[derive(Clone, Copy, Debug, PartialEq, Eq, Structural)]
pub enum PortalErrorKind {
    NetworkError,
    ParseError,
    HipRequired,
    AuthFailed,
    Other,
}

/// A failed round: its kind plus the raw or extracted diagnostic text.
#[derive(Debug, Clone)]
pub struct PortalError {
    pub kind: PortalErrorKind,
    pub reason: String,
}

impl PortalError {
    /// Build an error of the given kind around the given diagnostic text.
    pub fn new(kind: PortalErrorKind, reason: &str) -> (r: PortalError)
        ensures
            r.kind == kind,
            r.reason@ == reason@,
    {
        PortalError { kind, reason: String::from_str(reason) }
    }

    /// The kind, for branching on the outcome.
    pub fn kind(&self) -> (r: PortalErrorKind)
        ensures
            r == self.kind,
    {
        self.kind
    }

    /// The diagnostic text, never discarded.
    pub fn reason(&self) -> (r: &str)
        ensures
            r@ == self.reason@,
    {
        self.reason.as_str()
    }
}

} // verus!
