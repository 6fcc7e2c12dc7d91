//! Reduction of all accumulated layouts to the single best one.

use vstd::prelude::*;
use crate::data::{KEY_COUNT, Key, Keyboard, KeyboardModel, views_of};

verus! {

/// `i` points at the best layout: no layout scores lower, and every earlier
/// layout scores strictly higher, so ties go to the first one encountered.
pub open spec fn is_best_index(ks: Seq<KeyboardModel>, i: int) -> bool {
    &&& 0 <= i < ks.len()
    &&& forall|j: int| 0 <= j < ks.len() ==> ks[i].score <= (#[trigger] ks[j]).score
    &&& forall|j: int| 0 <= j < i ==> ks[i].score < (#[trigger] ks[j]).score
}

/// A 47-key layout grouped into the four display rows of 13, 13, 11 and 10
/// keys.
pub open spec fn rows_of(keys: Seq<Key>) -> Seq<Seq<Key>> {
    seq![
        keys.subrange(0, 13),
        keys.subrange(13, 26),
        keys.subrange(26, 37),
        keys.subrange(37, 47),
    ]
}

/// The views of a sequence of rows.
pub open spec fn row_views(rows: Seq<Vec<Key>>) -> Seq<Seq<Key>> {
    rows.map_values(|r: Vec<Key>| r@)
}

/// Find the layout with the lowest score, ties broken toward the first one
/// encountered; `None` exactly when there are no layouts.
pub fn best_index(keyboards: &Vec<Keyboard>) -> (r: Option<usize>)
    ensures
        match r {
            None => keyboards@.len() == 0,
            Some(i) => is_best_index(views_of(keyboards@), i as int),
        },
{
    if keyboards.len() == 0 {
        return None;
    }
    let mut best: usize = 0;
    let mut i: usize = 1;
    while i < keyboards.len()
        invariant
            0 < keyboards@.len(),
            best < i <= keyboards@.len(),
            forall|j: int| 0 <= j < i ==> keyboards@[best as int].score
                <= (#[trigger] keyboards@[j]).score,
            forall|j: int| 0 <= j < best ==> keyboards@[best as int].score
                < (#[trigger] keyboards@[j]).score,
        decreases keyboards@.len() - i,
    {
        if keyboards[i].score < keyboards[best].score {
            best = i;
        }
        i = i + 1;
    }
    proof {
        assert(is_best_index(views_of(keyboards@), best as int));
    }
    Some(best)
}

/// Copy the keys of positions `lo..hi` into a fresh row.
fn copy_row(keys: &Vec<Key>, lo: usize, hi: usize) -> (row: Vec<Key>)
    requires
        lo <= hi <= keys@.len(),
    ensures
        row@ == keys@.subrange(lo as int, hi as int),
{
    let mut row: Vec<Key> = Vec::new();
    let mut j: usize = lo;
    while j < hi
        invariant
            lo <= j <= hi <= keys@.len(),
            row@ == keys@.subrange(lo as int, j as int),
        decreases hi - j,
    {
        row.push(keys[j]);
        proof {
            assert(row@ =~= keys@.subrange(lo as int, j + 1 as int));
        }
        j = j + 1;
    }
    row
}

/// Group a complete layout into the four display rows.
pub fn layout_rows(keys: &Vec<Key>) -> (rows: Vec<Vec<Key>>)
    requires
        keys@.len() == KEY_COUNT,
    ensures
        row_views(rows@) == rows_of(keys@),
{
    let mut rows: Vec<Vec<Key>> = Vec::new();
    rows.push(copy_row(keys, 0, 13));
    rows.push(copy_row(keys, 13, 26));
    rows.push(copy_row(keys, 26, 37));
    rows.push(copy_row(keys, 37, 47));
    proof {
        assert(row_views(rows@) =~~= rows_of(keys@));
    }
    rows
}

/// The aggregation rule: order the layouts by ascending score, take the
/// first — lower scores are better, ties go to the earliest layout — and
/// group its keys into the four display rows. Yields nothing exactly when
/// no results have accumulated.
pub fn best_result(keyboards: &Vec<Keyboard>) -> (r: Option<Vec<Vec<Key>>>)
    requires
        forall|j: int| 0 <= j < keyboards@.len() ==> (#[trigger] keyboards@[j]).wf(),
    ensures
        match r {
            None => keyboards@.len() == 0,
            Some(rows) => exists|i: int|
                {
                    &&& #[trigger] is_best_index(views_of(keyboards@), i)
                    &&& row_views(rows@) == rows_of(keyboards@[i].keys@)
                },
        },
{
    match best_index(keyboards) {
        None => None,
        Some(i) => {
            let rows = layout_rows(&keyboards[i].keys);
            proof {
                assert(is_best_index(views_of(keyboards@), i as int)
                    && row_views(rows@) == rows_of(keyboards@[i as int].keys@));
            }
            Some(rows)
        },
    }
}

} // verus!
