//! Trusted boundary to `fixedbitset`, the bit-per-cell storage the grid
//! engine builds on.
//!
//! A `FixedBitSet` is modelled by the sequence of its bits, `fbs_bits`.
//! Each specification below states what the corresponding `fixedbitset`
//! method does to that sequence.

use vstd::prelude::*;

verus! {

#[verifier::external_type_specification]
#[verifier::external_body]
pub struct ExFixedBitSet(fixedbitset::FixedBitSet);

/// The contents of a `FixedBitSet`: one `bool` per bit, in index order.
pub uninterp spec fn fbs_bits(b: fixedbitset::FixedBitSet) -> Seq<bool>;

/// Relies on `FixedBitSet::with_capacity`: a set of exactly `bits` bits,
/// all initially clear.
pub assume_specification[ fixedbitset::FixedBitSet::with_capacity ](
    bits: usize,
) -> (r: fixedbitset::FixedBitSet)
    ensures
        fbs_bits(r) == Seq::new(bits as nat, |i: int| false),
;

/// Relies on `FixedBitSet::len`: the number of bits the set was created with.
pub assume_specification[ fixedbitset::FixedBitSet::len ](
    b: &fixedbitset::FixedBitSet,
) -> (r: usize)
    ensures
        r == fbs_bits(*b).len(),
;

/// Relies on `FixedBitSet::contains`: the bit's value when `bit` is in
/// range, and `false` for any bit outside the capacity.
pub assume_specification[ fixedbitset::FixedBitSet::contains ](
    b: &fixedbitset::FixedBitSet,
    bit: usize,
) -> (r: bool)
    ensures
        r == (bit < fbs_bits(*b).len() && fbs_bits(*b)[bit as int]),
;

/// Relies on `FixedBitSet::set`: writes one bit and leaves every other bit
/// unchanged. It panics on an out-of-range index, so that index is excluded.
pub assume_specification[ fixedbitset::FixedBitSet::set ](
    b: &mut fixedbitset::FixedBitSet,
    bit: usize,
    enabled: bool,
)
    requires
        bit < fbs_bits(*old(b)).len(),
    ensures
        fbs_bits(*final(b)) == fbs_bits(*old(b)).update(bit as int, enabled),
;

/// Relies on `<FixedBitSet as Clone>::clone`: the copy holds the same bits.
pub assume_specification[ <fixedbitset::FixedBitSet as Clone>::clone ](
    b: &fixedbitset::FixedBitSet,
) -> (r: fixedbitset::FixedBitSet)
    ensures
        fbs_bits(r) == fbs_bits(*b),
;

/// Whether bit `j` of the machine word `w` is one.
pub open spec fn word_bit(w: usize, j: int) -> bool {
    (w >> (j as usize)) & 1 == 1
}

/// Relies on `FixedBitSet::as_slice`: the packed storage as machine words,
/// bit `i` of the set stored at bit `i % 64` of word `i / 64` (the blocks
/// are `usize` words, 64 bits wide on this target), with exactly enough
/// words for the capacity.
pub assume_specification<'a>[ fixedbitset::FixedBitSet::as_slice ](
    b: &'a fixedbitset::FixedBitSet,
) -> (r: &'a [usize])
    ensures
        r@.len() == (fbs_bits(*b).len() + 63) / 64,
        forall|i: int|
            0 <= i < fbs_bits(*b).len() ==> fbs_bits(*b)[i] == word_bit(
                r@[i / 64],
                i % 64,
            ),
;

} // verus!
