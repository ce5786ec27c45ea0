//! The result type shared by every store operation.

use vstd::prelude::*;

use crate::errors;

verus! {

/// A helper `Result` alias.
///
/// Every store operation returns the same shape: the bytes read on success,
/// or an [`errors::Error`] on failure.
pub type Res = Result<Vec<u8>, errors::Error>;

/// Return an empty OK value.
///
/// Used by `set` and `delete`, which have no data to hand back but must
/// signal success uniformly with `get`.
pub fn empty_ok() -> (r: Res)
    ensures
        r matches Ok(v) && v@ == Seq::<u8>::empty(),
{
    Ok(Vec::new())
}

} // verus!
