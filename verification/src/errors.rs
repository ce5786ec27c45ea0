//! The error taxonomy shared by every backend.
//!
//! Every failure a store can report falls into exactly one of three kinds,
//! and no backend-specific error type ever crosses the contract boundary.

use vstd::prelude::*;

use vstd::string::StringExecFns;

verus! {

/// Errors for every problem a store may encounter.
///
/// * `NotFound` — the named key does not exist for a read or delete attempt;
///   carries the name for diagnostics.
/// * `Internal` — the underlying storage medium failed in a way that can
///   happen in normal operation (I/O failure, permission error, disk full);
///   carries a human-readable cause.
/// * `Bug` — an invariant of this library or of the calling code was
///   violated; not expected in normal operation.
#[derive(Debug)]
pub enum Error {
    /// The key was not found.
    NotFound(String),
    /// An internal error occurred in the storage medium.
    Internal(String),
    /// An unexpected error occurred; this is a bug on our side.
    Bug(String),
}

impl Error {
    /// What `==` means on errors: `NotFound` errors are equal iff their names
    /// are equal; two `Internal` errors are always equal, as are two `Bug`
    /// errors, regardless of the carried cause. Ignoring the cause is a
    /// deliberate choice so that callers can compare kinds without fixing
    /// cause strings, which differ between hosts.
    pub open spec fn same_kind(self, other: Error) -> bool {
        match (self, other) {
            (Error::NotFound(a), Error::NotFound(b)) => a@ == b@,
            (Error::Internal(_), Error::Internal(_)) => true,
            (Error::Bug(_), Error::Bug(_)) => true,
            _ => false,
        }
    }

    /// Create an internal error from a cause message.
    pub fn internal_from_msg(msg: String) -> (r: Self)
        ensures
            r == Error::Internal(msg),
    {
        Error::Internal(msg)
    }

    /// The human-readable message of the error, giving the context of the
    /// failure: the offending key name for `NotFound`, and the cause for
    /// `Internal` and `Bug`.
    pub fn message(&self) -> (r: String)
        ensures
            self matches Error::NotFound(n) ==> r@ == "Key with name `"@ + n@
                + "` was not found"@,
            self matches Error::Internal(c) ==> r@ == "An internal error occurred: "@ + c@,
            self matches Error::Bug(c) ==> r@ == "An unexpected error occurred: "@ + c@,
    {
        match self {
            Error::NotFound(n) => {
                let mut m = String::from_str("Key with name `");
                m.append(n.as_str());
                m.append("` was not found");
                m
            },
            Error::Internal(c) => {
                let mut m = String::from_str("An internal error occurred: ");
                m.append(c.as_str());
                m
            },
            Error::Bug(c) => {
                let mut m = String::from_str("An unexpected error occurred: ");
                m.append(c.as_str());
                m
            },
        }
    }
}

impl PartialEq for Error {
    fn eq(&self, other: &Error) -> bool {
        match (self, other) {
            (Error::NotFound(a), Error::NotFound(b)) => *a == *b,
            (Error::Internal(_), Error::Internal(_)) => true,
            (Error::Bug(_), Error::Bug(_)) => true,
            _ => false,
        }
    }
}

impl vstd::std_specs::cmp::PartialEqSpecImpl for Error {
    open spec fn obeys_eq_spec() -> bool {
        true
    }

    open spec fn eq_spec(&self, other: &Error) -> bool {
        self.same_kind(*other)
    }
}

} // verus!
