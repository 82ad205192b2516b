//! Sequences that keep the order of another one.

use vstd::prelude::*;

verus! {

/// Whether positions only grow.
pub open spec fn ascending(at: Seq<int>) -> bool {
    forall|i: int, j: int| 0 <= i < j < at.len() ==> at[i] < at[j]
}

/// Whether `part` holds the elements of `whole` at some positions.
pub open spec fn picked_at<T>(part: Seq<T>, whole: Seq<T>, at: Seq<int>) -> bool {
    &&& at.len() == part.len()
    &&& forall|k: int|
        0 <= k < part.len() ==> 0 <= #[trigger] at[k] < whole.len() && whole[at[k]] == part[k]
}

/// Whether `part` comes from `whole` by leaving elements out.
pub open spec fn subsequence<T>(part: Seq<T>, whole: Seq<T>) -> bool {
    exists|at: Seq<int>| ascending(at) && #[trigger] picked_at(part, whole, at)
}

/// Filtering leaves elements out and keeps the order of the others.
pub proof fn law_filter_is_subsequence<T>(s: Seq<T>, keep: spec_fn(T) -> bool)
    ensures
        subsequence(s.filter(keep), s),
    decreases s.len(),
{
    reveal(Seq::filter);
    if s.len() == 0 {
        assert(picked_at(s.filter(keep), s, Seq::<int>::empty()));
    } else {
        let rest = s.drop_last();
        law_filter_is_subsequence(rest, keep);
        let at = choose|at: Seq<int>|
            ascending(at) && #[trigger] picked_at(rest.filter(keep), rest, at);
        if keep(s.last()) {
            let more = at.push(s.len() - 1);
            assert(ascending(more));
            assert(picked_at(s.filter(keep), s, more));
        } else {
            assert(picked_at(s.filter(keep), s, at));
        }
    }
}

/// A stretch of a sequence leaves out what stands before and after it.
pub proof fn law_stretch_is_subsequence<T>(s: Seq<T>, from: int, to: int)
    requires
        0 <= from <= to <= s.len(),
    ensures
        subsequence(s.subrange(from, to), s),
{
    let at = Seq::new((to - from) as nat, |k: int| from + k);
    assert(ascending(at));
    assert(picked_at(s.subrange(from, to), s, at));
}

} // verus!
