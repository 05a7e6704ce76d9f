//! The threshold selector: which expression the current audio level calls
//! for.

use vstd::prelude::*;
use crate::expression::Expression;

verus! {

/// Whether the expression at `i` is the one that `level` selects from `s`: it
/// qualifies (its threshold is at most `level`), no qualifying expression has
/// a higher threshold, and every later qualifying one has a lower threshold,
/// so that among equal maximal thresholds the last in catalog order wins.
pub open spec fn is_selection(s: Seq<Expression>, level: int, i: int) -> bool {
    &&& 0 <= i < s.len()
    &&& s[i].threshold <= level
    &&& forall|j: int|
        0 <= j < s.len() && #[trigger] s[j].threshold <= level ==> s[j].threshold
            <= s[i].threshold
    &&& forall|j: int|
        i < j < s.len() && #[trigger] s[j].threshold <= level ==> s[j].threshold
            < s[i].threshold
}

/// The position of the expression that `level` selects from `s`, or `None`
/// where `level` is below every threshold.
pub open spec fn selection(s: Seq<Expression>, level: int) -> Option<int> {
    if exists|i: int| is_selection(s, level, i) {
        Some(choose|i: int| is_selection(s, level, i))
    } else {
        None
    }
}

/// At most one position is selected.
pub proof fn lemma_selection_unique(s: Seq<Expression>, level: int, i: int)
    requires
        is_selection(s, level, i),
    ensures
        selection(s, level) == Some(i),
{
    let k = choose|k: int| is_selection(s, level, k);
    assert(is_selection(s, level, k));
    if k < i {
        assert(s[i].threshold < s[k].threshold);
    } else if i < k {
        assert(s[k].threshold < s[i].threshold);
    }
}

/// Of two qualifying expressions with equal thresholds, the earlier one is
/// never selected.
pub proof fn lemma_tie_goes_to_later(s: Seq<Expression>, level: int, i: int, j: int)
    requires
        0 <= i < j < s.len(),
        s[i].threshold == s[j].threshold,
        s[j].threshold <= level,
    ensures
        selection(s, level) != Some(i),
{
    if selection(s, level) == Some(i) {
        let k = choose|k: int| is_selection(s, level, k);
        assert(is_selection(s, level, k));
        assert(s[j].threshold < s[i].threshold);
    }
}

/// Picks the expression with the highest threshold that `level` reaches,
/// the last of several with that threshold, or `None` where `level` is below
/// every threshold.
pub fn select_expression(s: &Vec<Expression>, level: i64) -> (r: Option<usize>)
    ensures
        r matches Some(i) ==> is_selection(s@, level as int, i as int),
        r is None <==> forall|j: int| 0 <= j < s@.len() ==> #[trigger] s@[j].threshold > level,
        r matches Some(i) ==> selection(s@, level as int) == Some(i as int),
        r is None ==> selection(s@, level as int) is None,
{
    let mut best: Option<usize> = None;
    let mut k: usize = 0;
    while k < s.len()
        invariant
            k <= s@.len(),
            best is None ==> forall|j: int| 0 <= j < k ==> #[trigger] s@[j].threshold > level,
            best matches Some(b) ==> {
                &&& b < k
                &&& s@[b as int].threshold <= level
                &&& forall|j: int|
                    0 <= j < k && #[trigger] s@[j].threshold <= level ==> s@[j].threshold
                        <= s@[b as int].threshold
                &&& forall|j: int|
                    b < j < k && #[trigger] s@[j].threshold <= level ==> s@[j].threshold
                        < s@[b as int].threshold
            },
        decreases s@.len() - k,
    {
        let t = s[k].threshold;
        if t <= level {
            match best {
                None => {
                    best = Some(k);
                },
                Some(b) => {
                    if t >= s[b].threshold {
                        best = Some(k);
                    }
                },
            }
        }
        k = k + 1;
    }
    match best {
        Some(b) => {
            proof {
                lemma_selection_unique(s@, level as int, b as int);
            }
        },
        None => {
            assert(!exists|i: int| is_selection(s@, level as int, i));
        },
    }
    best
}

} // verus!
