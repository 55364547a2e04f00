//! A fixed-size, heap-allocated block of zeros.

use vstd::prelude::*;

verus! {

/// Ten zeros, boxed: the size is fixed at compile time and the block lives
/// on the heap.
pub fn give_me_ten_zeros() -> (zs: Box<[u32]>)
    ensures
        zs@.len() == 10,
        forall|i: int| 0 <= i < 10 ==> zs@[i] == 0u32,
{
    Box::new([0u32;10])
}

} // verus!
