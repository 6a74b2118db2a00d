//! Little-endian byte views of the fixed-width integers that cross the
//! boundary between the coordinator and the cluster.

use vstd::prelude::*;

verus! {

/// The sixteen little-endian bytes of a 128-bit value.
pub open spec fn u128_le(v: u128) -> Seq<u8> {
    Seq::new(16, |i: int| ((v >> ((8 * i) as u128)) & 0xff) as u8)
}

/// The four little-endian bytes of a 32-bit value.
pub open spec fn u32_le(v: u32) -> Seq<u8> {
    Seq::new(4, |i: int| ((v >> ((8 * i) as u32)) & 0xff) as u8)
}

/// Writes a 128-bit value as its sixteen little-endian bytes.
pub fn u128_le_bytes(v: u128) -> (r: Vec<u8>)
    ensures
        r@ == u128_le(v),
{
    let mut r: Vec<u8> = Vec::new();
    let mut i: usize = 0;
    while i < 16
        invariant
            i <= 16,
            r@.len() == i,
            forall|j: int| 0 <= j < i ==> r@[j] == u128_le(v)[j],
        decreases 16 - i,
    {
        let b: u8 = ((v >> ((8 * i) as u128)) & 0xff) as u8;
        r.push(b);
        i = i + 1;
    }
    proof {
        assert(r@ =~= u128_le(v));
    }
    r
}

} // verus!
