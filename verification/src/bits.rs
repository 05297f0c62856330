//! Single-bit views over a 32-bit register word.

use vstd::prelude::*;

verus! {

/// True when bit `i` of `w` is set.
pub open spec fn bit_of(w: u32, i: u32) -> bool {
    (w >> i) & 1 != 0
}

/// `w` with bit `i` forced to `b` and every other bit kept.
pub open spec fn with_bit(w: u32, i: u32, b: bool) -> u32 {
    (w & !(1u32 << i)) | ((if b {
        1u32
    } else {
        0u32
    }) << i)
}

} // verus!
