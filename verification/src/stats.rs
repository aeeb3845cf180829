//! The integer part of the host statistics report: memory sizes are
//! reported in mebibytes.

use vstd::prelude::*;

verus! {

/// Converts a byte count to whole mebibytes, rounding down.
pub fn bytes_to_mebibytes(bytes: u64) -> (mib: u64)
    ensures
        mib == bytes / 1024 / 1024,
{
    bytes / 1024 / 1024
}

} // verus!
