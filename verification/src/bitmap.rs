//! Trusted interface to the `bit_vec` crate, whose `BitVec` carries the
//! per-tick activity bitmaps: one bit per station.

use vstd::prelude::*;
use bit_vec::BitVec;

verus! {

#[verifier::external_type_specification]
#[verifier::external_body]
#[verifier::reject_recursive_types(B)]
pub struct ExBitVec<B>(BitVec<B>);

/// The bits a `BitVec` holds, as a sequence of booleans indexed from bit 0.
pub uninterp spec fn bits_of(b: BitVec) -> Seq<bool>;

/// Relies on bit_vec::BitVec::from_elem: a bitmap of `len` bits, every one
/// equal to `bit`.
#[verifier::external_body]
pub(crate) fn bitvec_from_elem(len: usize, bit: bool) -> (r: BitVec)
    ensures
        bits_of(r) == Seq::new(len as nat, |i: int| bit),
{
    BitVec::from_elem(len, bit)
}

/// Relies on bit_vec::BitVec::get: `Some` holding bit `i` exactly when `i` is
/// in bounds; the precondition keeps it in bounds, so the value is present.
#[verifier::external_body]
pub(crate) fn bitvec_get(b: &BitVec, i: usize) -> (r: bool)
    requires
        i < bits_of(*b).len(),
    ensures
        r == bits_of(*b)[i as int],
{
    b.get(i).unwrap()
}

/// Relies on bit_vec::BitVec::set: replaces bit `i` with `x`. It panics on an
/// out-of-bounds index, which the precondition rules out.
#[verifier::external_body]
pub(crate) fn bitvec_set(b: &mut BitVec, i: usize, x: bool)
    requires
        i < bits_of(*old(b)).len(),
    ensures
        bits_of(*final(b)) == bits_of(*old(b)).update(i as int, x),
{
    b.set(i, x)
}

} // verus!
