//! Growable bit sequence backed by `bitvec::vec::BitVec`.
//!
//! The bit-vector is held in a private field of a struct that Verus treats as opaque;
//! every operation the library performs on it is a small trusted wrapper whose contract
//! is stated over `bits_of`, the sequence of bits it holds.
use bitvec::vec::BitVec;
use vstd::prelude::*;

verus! {

/// Largest length a `BitVec` can encode (`BitSlice::MAX_BITS`, which is `usize::MAX >> 3`).
pub open spec fn max_bits() -> nat {
    (usize::MAX as nat) / 8
}

/// A bit sequence stored in a `bitvec::vec::BitVec<usize, Lsb0>`.
#[verifier::external_body]
#[derive(Debug, PartialEq, Eq, Hash)]
pub struct Bits {
    inner: BitVec,
}

/// The bits held by a `Bits` value, in index order.
pub uninterp spec fn bits_of(v: Bits) -> Seq<bool>;

/// A bit of `s`, with positions past the end reading as `false`.
pub open spec fn bit_at(s: Seq<bool>, i: int) -> bool {
    0 <= i < s.len() && s[i]
}

/// `BitVec::new`: an empty bit-vector.
#[verifier::external_body]
pub(crate) fn bits_new() -> (r: Bits)
    ensures
        bits_of(r) == Seq::<bool>::empty(),
{
    Bits { inner: BitVec::new() }
}

/// `BitVec::repeat(false, len)`: `len` cleared bits.
///
/// The bitvec source asserts that `len` is encodable, so larger lengths are excluded.
#[verifier::external_body]
pub(crate) fn bits_repeat_false(len: usize) -> (r: Bits)
    requires
        len <= max_bits(),
    ensures
        bits_of(r) == Seq::new(len as nat, |i: int| false),
{
    Bits { inner: BitVec::repeat(false, len) }
}

/// `BitVec::push`: appends one bit.
///
/// The bitvec source asserts that the new length is encodable.
#[verifier::external_body]
pub(crate) fn bits_push(v: &mut Bits, bit: bool)
    requires
        bits_of(*old(v)).len() + 1 <= max_bits(),
    ensures
        bits_of(*final(v)) == bits_of(*old(v)).push(bit),
{
    v.inner.push(bit)
}

/// `BitVec::len`: number of bits.
#[verifier::external_body]
pub(crate) fn bits_len(v: &Bits) -> (r: usize)
    ensures
        r == bits_of(*v).len(),
{
    v.inner.len()
}

/// `BitVec::is_empty`: whether there are no bits at all.
#[verifier::external_body]
pub(crate) fn bits_is_empty(v: &Bits) -> (r: bool)
    ensures
        r == (bits_of(*v).len() == 0),
{
    v.inner.is_empty()
}

/// `BitSlice::get`: the bit at `index`, or `None` past the end.
#[verifier::external_body]
pub(crate) fn bits_get(v: &Bits, index: usize) -> (r: Option<bool>)
    ensures
        index < bits_of(*v).len() ==> r == Some(bits_of(*v)[index as int]),
        index >= bits_of(*v).len() ==> r == None::<bool>,
{
    match v.inner.get(index) {
        Some(b) => Some(*b),
        None => None,
    }
}

/// Number of set bits in `s`.
pub open spec fn count_set(s: Seq<bool>) -> nat
    decreases s.len(),
{
    if s.len() == 0 {
        0
    } else {
        count_set(s.drop_last()) + if s.last() { 1nat } else { 0nat }
    }
}

/// `BitSlice::count_ones`: number of set bits.
#[verifier::external_body]
pub(crate) fn bits_count_ones(v: &Bits) -> (r: usize)
    ensures
        r == count_set(bits_of(*v)),
{
    v.inner.count_ones()
}

/// `BitVec |= BitVec`: each bit of `v` is or-ed with the bit of `rhs` at the same index;
/// `rhs` reads as zero past its end and `v` keeps its length.
#[verifier::external_body]
pub(crate) fn bits_or_assign(v: &mut Bits, rhs: Bits)
    ensures
        bits_of(*final(v)).len() == bits_of(*old(v)).len(),
        forall|i: int|
            0 <= i < bits_of(*old(v)).len() ==> #[trigger] bits_of(*final(v))[i] == (bits_of(
                *old(v),
            )[i] || bit_at(bits_of(rhs), i)),
{
    v.inner |= rhs.inner
}

/// `BitVec::clone`: a copy holding the same bits.
#[verifier::external_body]
pub(crate) fn bits_clone(v: &Bits) -> (r: Bits)
    ensures
        bits_of(r) == bits_of(*v),
{
    Bits { inner: v.inner.clone() }
}

} // verus!
