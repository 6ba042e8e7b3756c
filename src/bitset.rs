//! Presence indexes: hierarchical bitsets of entity indices, backed by
//! `hibitset::BitSet`.
use vstd::prelude::*;

verus! {

/// Highest entity index (exclusive) that a presence index accepts.
///
/// `hibitset::BitSet` is meant for indices below `usize**4` (2^20 on 32-bit
/// targets, 2^24 on 64-bit ones); it neither panics on nor iterates correctly
/// over an index equal to that limit. Every index that this library adds is
/// strictly below `MAX_INDEX`, which is at most that limit on every pointer
/// width.
pub const MAX_INDEX: u32 = 1_048_576;

#[verifier::external_type_specification]
#[verifier::external_body]
pub struct ExBitSet(hibitset::BitSet);

/// The indices that a bitset holds.
pub uninterp spec fn bit_set_members(b: hibitset::BitSet) -> Set<u32>;

/// Every index of the set is below `MAX_INDEX`, where iteration is exact.
pub open spec fn bounded(b: hibitset::BitSet) -> bool {
    forall|x: u32| #[trigger] bit_set_members(b).contains(x) ==> x < MAX_INDEX
}

/// Relies on `hibitset::BitSet::new`: the new set is empty.
#[verifier::external_body]
pub fn bit_set_new() -> (r: hibitset::BitSet)
    ensures
        bit_set_members(r) == Set::<u32>::empty(),
{
    hibitset::BitSet::new()
}

/// Relies on `hibitset::BitSet::with_capacity`: an empty set with room for
/// `max` indices (it panics above its own limit, which `MAX_INDEX` is below).
#[verifier::external_body]
pub fn bit_set_with_capacity(max: u32) -> (r: hibitset::BitSet)
    requires
        max <= MAX_INDEX,
    ensures
        bit_set_members(r) == Set::<u32>::empty(),
{
    hibitset::BitSet::with_capacity(max)
}

/// Relies on `hibitset::BitSet::add`: inserts `id`, returns whether it was
/// already there (it panics for indices above its limit).
#[verifier::external_body]
pub fn bit_set_add(b: &mut hibitset::BitSet, id: u32) -> (r: bool)
    requires
        id < MAX_INDEX,
    ensures
        r == bit_set_members(*old(b)).contains(id),
        bit_set_members(*final(b)) == bit_set_members(*old(b)).insert(id),
{
    b.add(id)
}

/// Relies on `hibitset::BitSet::remove`: deletes `id`, returns whether it
/// was there.
#[verifier::external_body]
pub fn bit_set_remove(b: &mut hibitset::BitSet, id: u32) -> (r: bool)
    ensures
        r == bit_set_members(*old(b)).contains(id),
        bit_set_members(*final(b)) == bit_set_members(*old(b)).remove(id),
{
    b.remove(id)
}

/// Relies on `hibitset::BitSet::contains`: membership of `id`.
#[verifier::external_body]
pub fn bit_set_contains(b: &hibitset::BitSet, id: u32) -> (r: bool)
    ensures
        r == bit_set_members(*b).contains(id),
{
    b.contains(id)
}

/// Relies on `hibitset::BitSet`'s `Clone`: the copy holds the same indices.
#[verifier::external_body]
pub fn bit_set_clone(b: &hibitset::BitSet) -> (r: hibitset::BitSet)
    ensures
        bit_set_members(r) == bit_set_members(*b),
{
    b.clone()
}

/// Relies on `hibitset::BitSetAnd` walked by `BitSetLike::iter` and
/// collected through `BitSet`'s `FromIterator`: a new set of the indices
/// that both sets hold.
#[verifier::external_body]
pub fn bit_set_and(a: &hibitset::BitSet, b: &hibitset::BitSet) -> (r: hibitset::BitSet)
    requires
        bounded(*a),
        bounded(*b),
    ensures
        bit_set_members(r) == bit_set_members(*a).intersect(bit_set_members(*b)),
{
    hibitset::BitSetLike::iter(hibitset::BitSetAnd(a, b)).collect()
}

/// Relies on `hibitset::BitSetAnd` with `hibitset::BitSetNot`, walked by
/// `BitSetLike::iter` and collected through `BitSet`'s `FromIterator`: a new
/// set of the indices of `a` that `b` does not hold.
#[verifier::external_body]
pub fn bit_set_and_not(a: &hibitset::BitSet, b: &hibitset::BitSet) -> (r: hibitset::BitSet)
    requires
        bounded(*a),
        bounded(*b),
    ensures
        bit_set_members(r) == bit_set_members(*a).difference(bit_set_members(*b)),
{
    hibitset::BitSetLike::iter(hibitset::BitSetAnd(a, hibitset::BitSetNot(b))).collect()
}

/// Relies on `hibitset::BitSetLike::iter`: every index of the set, once
/// each, in ascending order, for a set whose indices are below the limit.
#[verifier::external_body]
pub fn bit_set_indices(b: &hibitset::BitSet) -> (r: Vec<u32>)
    requires
        bounded(*b),
    ensures
        forall|i: int, j: int| 0 <= i < j < r.len() ==> r[i] < r[j],
        forall|x: u32| r@.contains(x) <==> bit_set_members(*b).contains(x),
{
    hibitset::BitSetLike::iter(b).collect()
}

} // verus!
