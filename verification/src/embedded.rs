//! The embedded-database backend's verified core.
//!
//! That backend is backed by an embedded, log-structured key-value database
//! opened against a directory. The database calls themselves live outside
//! this library; what stands here is the backend's decision logic: how the
//! outcome of each database primitive is classified into the error
//! taxonomy. Deleting is a two-step affair — the database's own delete does
//! not tell "deleted" from "was never present", so the backend first looks
//! the key up and propagates `NotFound`, and only then erases. The two
//! steps are not atomic against concurrent deleters of the same key; that
//! race is an accepted limitation, not corrected by an extra lock.

use vstd::prelude::*;

use crate::errors::Error;
use crate::res::{empty_ok, Res};

verus! {

/// Classify the outcome of a point lookup: found bytes are handed back as
/// they are, an absent key is `NotFound` carrying the name, and a lookup
/// failure is `Internal` carrying its cause. `get` uses this directly, and
/// `delete` uses it for its existence check.
pub fn interpret_lookup(name: &str, outcome: Result<Option<Vec<u8>>, String>) -> (r: Res)
    ensures
        outcome matches Ok(Some(buf)) ==> (r matches Ok(v) && v == buf),
        outcome matches Ok(None) ==> (r matches Err(Error::NotFound(s)) && s@ == name@),
        outcome matches Err(c) ==> (r matches Err(Error::Internal(m)) && m == c),
{
    match outcome {
        Ok(found) => match found {
            Some(buf) => Ok(buf),
            None => Err(Error::NotFound(name.to_owned())),
        },
        Err(cause) => Err(Error::Internal(cause)),
    }
}

/// Classify the outcome of a point write or erase: success is the empty
/// success value, and a failure is `Internal` carrying its cause. `set`
/// uses this for its write, and `delete` for its second step, the erase
/// that follows a successful existence check.
pub fn interpret_write(outcome: Result<(), String>) -> (r: Res)
    ensures
        outcome is Ok ==> (r matches Ok(v) && v@ == Seq::<u8>::empty()),
        outcome matches Err(c) ==> (r matches Err(Error::Internal(m)) && m == c),
{
    match outcome {
        Ok(_) => empty_ok(),
        Err(cause) => Err(Error::Internal(cause)),
    }
}

} // verus!
