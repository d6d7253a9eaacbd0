//! What a filtered sequence holds: the passing items, at ascending
//! positions of the sequence.

use vstd::prelude::*;

verus! {

/// The positions of the items of `s` that pass `test`, ascending.
pub open spec fn passing<A>(s: Seq<A>, test: spec_fn(A) -> bool) -> Seq<int>
    decreases s.len(),
{
    if s.len() == 0 {
        Seq::empty()
    } else if test(s.last()) {
        passing(s.drop_last(), test).push(s.len() - 1)
    } else {
        passing(s.drop_last(), test)
    }
}

/// The filtered sequence holds the items at the passing positions, in the
/// order of the positions; the positions ascend, each holds an item that
/// passes, and no item that passes is left out.
pub proof fn lemma_filter_positions<A>(s: Seq<A>, test: spec_fn(A) -> bool)
    ensures
        passing(s, test).len() == s.filter(test).len(),
        forall|k: int|
            0 <= k < passing(s, test).len() ==> 0 <= (#[trigger] passing(s, test)[k]) < s.len()
                && test(s[passing(s, test)[k]]) && s.filter(test)[k] == s[passing(s, test)[k]],
        forall|j: int, k: int|
            0 <= j < k < passing(s, test).len() ==> passing(s, test)[j] < passing(s, test)[k],
        forall|i: int| 0 <= i < s.len() && test(#[trigger] s[i]) ==> passing(s, test).contains(i),
    decreases s.len(),
{
    reveal(Seq::filter);
    if s.len() > 0 {
        let front = s.drop_last();
        lemma_filter_positions(front, test);
        let at = passing(s, test);
        let before = passing(front, test);
        assert forall|i: int| 0 <= i < s.len() && test(#[trigger] s[i]) implies at.contains(
            i,
        ) by {
            if i < s.len() - 1 {
                assert(front[i] == s[i]);
                let k = choose|k: int| 0 <= k < before.len() && before[k] == i;
                assert(at[k] == i);
            } else {
                assert(at[at.len() - 1] == i);
            }
        }
    }
}

/// A test that every item passes keeps the whole sequence.
pub proof fn lemma_filter_all<A>(s: Seq<A>, test: spec_fn(A) -> bool)
    requires
        forall|i: int| 0 <= i < s.len() ==> test(#[trigger] s[i]),
    ensures
        s.filter(test) == s,
    decreases s.len(),
{
    reveal(Seq::filter);
    if s.len() > 0 {
        lemma_filter_all(s.drop_last(), test);
    }
}

} // verus!
