//! Joins: the entities present in every required presence index and in
//! none of the excluded ones, in ascending index order.
use vstd::prelude::*;
use crate::bitset::{
    bit_set_and, bit_set_and_not, bit_set_clone, bit_set_indices, bit_set_members, bounded,
};

verus! {

/// `x` is in every mask of `masks[lo..hi]`.
pub open spec fn in_all(masks: Seq<&hibitset::BitSet>, lo: int, hi: int, x: u32) -> bool {
    forall|i: int| lo <= i < hi ==> #[trigger] bit_set_members(*masks[i]).contains(x)
}

/// `x` is in none of the masks.
pub open spec fn in_none(masks: Seq<&hibitset::BitSet>, hi: int, x: u32) -> bool {
    forall|i: int| 0 <= i < hi ==> !#[trigger] bit_set_members(*masks[i]).contains(x)
}

/// Every mask of the list holds only indices below `MAX_INDEX`.
pub open spec fn all_bounded(masks: Seq<&hibitset::BitSet>) -> bool {
    forall|i: int| 0 <= i < masks.len() ==> bounded(*#[trigger] masks[i])
}

/// `x` belongs to the join of `required` with `excluded` left out.
pub open spec fn joined(
    required: Seq<&hibitset::BitSet>,
    excluded: Seq<&hibitset::BitSet>,
    x: u32,
) -> bool {
    in_all(required, 0, required.len() as int, x) && in_none(excluded, excluded.len() as int, x)
}

/// Intersection of `masks[lo..hi]`, combined pairwise as a balanced tree.
fn and_tree(masks: &Vec<&hibitset::BitSet>, lo: usize, hi: usize) -> (r: hibitset::BitSet)
    requires
        lo < hi <= masks.len(),
        all_bounded(masks@),
    ensures
        forall|x: u32| bit_set_members(r).contains(x) <==> in_all(masks@, lo as int, hi as int, x),
        bounded(r),
    decreases hi - lo,
{
    if hi - lo == 1 {
        let r = bit_set_clone(masks[lo]);
        assert forall|x: u32| bit_set_members(r).contains(x) <==> in_all(
            masks@,
            lo as int,
            hi as int,
            x,
        ) by {
            if bit_set_members(r).contains(x) {
                assert forall|i: int| lo <= i < hi implies #[trigger] bit_set_members(
                    *masks@[i],
                ).contains(x) by {
                    assert(i == lo);
                }
            }
        }
        r
    } else {
        let mid = lo + (hi - lo) / 2;
        let left_part = and_tree(masks, lo, mid);
        let right = and_tree(masks, mid, hi);
        let left = bit_set_and(&left_part, &right);
        assert forall|x: u32| bit_set_members(left).contains(x) <==> in_all(
            masks@,
            lo as int,
            hi as int,
            x,
        ) by {
            if in_all(masks@, lo as int, hi as int, x) {
                assert(in_all(masks@, lo as int, mid as int, x));
                assert(in_all(masks@, mid as int, hi as int, x));
            }
        }
        left
    }
}

/// The indices present in every mask of `required` and in no mask of
/// `excluded`, ascending, each once.
///
/// The required masks are intersected before any index is produced, so a
/// caller may read every required backend at each returned index.
pub fn join(required: &Vec<&hibitset::BitSet>, excluded: &Vec<&hibitset::BitSet>) -> (r: Vec<u32>)
    requires
        required.len() >= 1,
        all_bounded(required@),
        all_bounded(excluded@),
    ensures
        forall|i: int, j: int| 0 <= i < j < r.len() ==> r[i] < r[j],
        forall|x: u32| r@.contains(x) <==> joined(required@, excluded@, x),
{
    let mut merged = and_tree(required, 0, required.len());
    let mut k: usize = 0;
    while k < excluded.len()
        invariant
            k <= excluded.len(),
            all_bounded(excluded@),
            bounded(merged),
            forall|x: u32|
                bit_set_members(merged).contains(x) <==> (in_all(
                    required@,
                    0,
                    required@.len() as int,
                    x,
                ) && in_none(excluded@, k as int, x)),
        decreases excluded.len() - k,
    {
        merged = bit_set_and_not(&merged, excluded[k]);
        k = k + 1;
        assert forall|x: u32|
            bit_set_members(merged).contains(x) <==> (in_all(
                required@,
                0,
                required@.len() as int,
                x,
            ) && in_none(excluded@, k as int, x)) by {
            if in_none(excluded@, k as int, x) {
                assert(!bit_set_members(*excluded@[k - 1]).contains(x));
            }
        }
    }
    bit_set_indices(&merged)
}

} // verus!
