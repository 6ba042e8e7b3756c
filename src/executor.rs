//! The decision step of the inline executor: after each polling round the
//! finished computations leave the work buffer and the others stay for the
//! next round.
use vstd::prelude::*;

verus! {

/// The items of `s` whose flag in `finished` is false, last one first.
pub open spec fn unfinished<T>(s: Seq<T>, finished: Seq<bool>) -> Seq<T>
    decreases s.len(),
{
    if s.len() == 0 {
        Seq::empty()
    } else {
        let rest = unfinished(s.drop_last(), finished);
        if finished[s.len() - 1] {
            rest
        } else {
            seq![s.last()] + rest
        }
    }
}

/// Keeps in `pending` the computations that did not finish in the last
/// round: `finished[i]` tells whether the one at `i` completed. The buffer
/// is reused; the kept ones come out last one first.
pub fn retain_pending<T>(pending: &mut Vec<T>, finished: &Vec<bool>)
    requires
        old(pending).len() == finished.len(),
    ensures
        final(pending)@ == unfinished(old(pending)@, finished@),
{
    let mut kept: Vec<T> = Vec::new();
    while pending.len() > 0
        invariant
            pending@.len() <= finished@.len(),
            finished@.len() == old(pending)@.len(),
            pending@ == old(pending)@.subrange(0, pending@.len() as int),
            kept@ + unfinished(pending@, finished@) == unfinished(old(pending)@, finished@),
        decreases pending@.len(),
    {
        let ghost before = pending@;
        let x = pending.pop().unwrap();
        assert(pending@ =~= before.drop_last());
        assert(pending@ =~= old(pending)@.subrange(0, pending@.len() as int));
        let ghost kept_before = kept@;
        if !finished[pending.len()] {
            kept.push(x);
            assert(kept@ + unfinished(pending@, finished@) =~= kept_before + (seq![x]
                + unfinished(pending@, finished@)));
        }
    }
    assert(kept@ =~= unfinished(old(pending)@, finished@));
    std::mem::swap(pending, &mut kept);
}

} // verus!
