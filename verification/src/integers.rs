//! The extreme values of the primitive integer widths, signed and unsigned.

use vstd::prelude::*;

verus! {

/// The largest value of each signed width, from 8 through 128 bits.
pub fn signed_ints() -> (r: (i8, i16, i32, i64, i128))
    ensures
        r.0 == i8::MAX,
        r.1 == i16::MAX,
        r.2 == i32::MAX,
        r.3 == i64::MAX,
        r.4 == i128::MAX,
{
    (i8::MAX, i16::MAX, i32::MAX, i64::MAX, i128::MAX)
}

/// The largest value of each unsigned width, from 8 through 128 bits.
pub fn unsigned_ints() -> (r: (u8, u16, u32, u64, u128))
    ensures
        r.0 == u8::MAX,
        r.1 == u16::MAX,
        r.2 == u32::MAX,
        r.3 == u64::MAX,
        r.4 == u128::MAX,
{
    (u8::MAX, u16::MAX, u32::MAX, u64::MAX, u128::MAX)
}

} // verus!
