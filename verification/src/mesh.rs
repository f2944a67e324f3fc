//! Index arithmetic of triangle meshes read back from OCCT.
use vstd::prelude::*;

verus! {

/// The 0-based `u32` index for the 1-based node index `n` that
/// `Poly_Triangulation` reports: `n - 1`, wrapped into `u32` as `as` casts
/// do (OCCT's indices start at 1, so the wrap never arises for them).
pub open spec fn zero_based_index(n: int) -> int {
    if n >= 1 {
        n - 1
    } else {
        n - 1 + 0x1_0000_0000
    }
}

/// Converts a 1-based node index to the 0-based index of a mesh's index
/// buffer.
pub fn zero_based(n: i32) -> (r: u32)
    requires
        n > i32::MIN,
    ensures
        r as int == zero_based_index(n as int),
{
    let m: i32 = n - 1;
    let r = m as u32;
    assert(r as int == if m >= 0 { m as int } else { m + 0x1_0000_0000 }) by (bit_vector)
        requires
            r == m as u32,
    ;
    r
}

} // verus!
