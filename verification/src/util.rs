//! Small checks shared by storage-facing callers.

use vstd::prelude::*;

verus! {

/// A buffer did not have the byte length its schema demands.
#[derive(Clone, Copy, Debug, PartialEq, Eq, Structural)]
pub struct LenMismatch {
    /// The length found.
    pub actual: usize,
    /// The length the caller demanded.
    pub expected: usize,
}

/// Demand an exact byte length of a raw buffer before decoding it:
/// `Ok` exactly when the length matches, the mismatch reported
/// otherwise.
pub fn ensure_slice_len_eq(data: &[u8], len: usize) -> (r: Result<(), LenMismatch>)
    ensures
        r is Ok <==> data@.len() == len,
        r matches Err(e) ==> e.actual == data@.len() && e.expected == len,
{
    if data.len() == len {
        Ok(())
    } else {
        Err(LenMismatch { actual: data.len(), expected: len })
    }
}

} // verus!
