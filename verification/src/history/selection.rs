//! Facts about selections of rows, on which the store's proofs rest.

use vstd::prelude::*;
use crate::history::entry::HistoryEntryView;
use crate::history::model::{in_creation_order, of_task, oldest_of_task};

verus! {

/// What a selection keeps of a single row.
pub proof fn lemma_filter_one(row: HistoryEntryView, keep: spec_fn(HistoryEntryView) -> bool)
    ensures
        seq![row].filter(keep) == if keep(row) {
            seq![row]
        } else {
            Seq::<HistoryEntryView>::empty()
        },
{
    reveal(Seq::filter);
    assert(seq![row].drop_last() =~= Seq::<HistoryEntryView>::empty());
    assert(Seq::<HistoryEntryView>::empty().filter(keep) =~= Seq::<HistoryEntryView>::empty());
    assert(Seq::<HistoryEntryView>::empty().push(row) =~= seq![row]);
}

/// What a selection keeps after one row has been removed: the same, less
/// that row where the selection kept it.
pub proof fn lemma_filter_remove(
    rows: Seq<HistoryEntryView>,
    i: int,
    keep: spec_fn(HistoryEntryView) -> bool,
)
    requires
        0 <= i < rows.len(),
    ensures
        !keep(rows[i]) ==> rows.remove(i).filter(keep) == rows.filter(keep),
        keep(rows[i]) ==> rows.remove(i).filter(keep).len() == rows.filter(keep).len() - 1,
        rows.remove(i).filter(keep) == rows.subrange(0, i).filter(keep) + rows.subrange(
            i + 1,
            rows.len() as int,
        ).filter(keep),
{
    let head = rows.subrange(0, i);
    let tail = rows.subrange(i + 1, rows.len() as int);
    let mid = seq![rows[i]];
    assert(rows =~= head + mid + tail);
    assert(rows.remove(i) =~= head + tail);
    Seq::filter_distributes_over_add(head, mid, keep);
    Seq::filter_distributes_over_add(head + mid, tail, keep);
    Seq::filter_distributes_over_add(head, tail, keep);
    lemma_filter_one(rows[i], keep);
    if keep(rows[i]) {
        assert(rows.filter(keep).len() == head.filter(keep).len() + 1 + tail.filter(keep).len());
    } else {
        assert(head.filter(keep) + Seq::<HistoryEntryView>::empty() =~= head.filter(keep));
    }
}

/// Where `oldest_of_task` points: no row before it belongs to the task,
/// and the row there does, if the task has any row.
pub proof fn lemma_oldest_of_task(rows: Seq<HistoryEntryView>, task_id: u128)
    ensures
        0 <= oldest_of_task(rows, task_id) <= rows.len(),
        forall|j: int| 0 <= j < oldest_of_task(rows, task_id) ==> rows[j].task_id != task_id,
        oldest_of_task(rows, task_id) < rows.len() ==> rows[oldest_of_task(
            rows,
            task_id,
        )].task_id == task_id,
        oldest_of_task(rows, task_id) == rows.len() ==> rows.filter(of_task(task_id)).len() == 0,
    decreases rows.len(),
{
    reveal(Seq::filter);
    if rows.len() == 0 {
    } else if rows[0].task_id == task_id {
    } else {
        let rest = rows.drop_first();
        lemma_oldest_of_task(rest, task_id);
        let k = oldest_of_task(rest, task_id);
        assert forall|j: int| 0 <= j < k + 1 implies rows[j].task_id != task_id by {
            if j > 0 {
                assert(rest[j - 1] == rows[j]);
            }
        }
        if k + 1 < rows.len() {
            assert(rest[k] == rows[k + 1]);
        } else {
            assert(rows =~= seq![rows[0]] + rest);
            Seq::filter_distributes_over_add(seq![rows[0]], rest, of_task(task_id));
            lemma_filter_one(rows[0], of_task(task_id));
        }
    }
}

/// Of the rows that one selection keeps, another selection keeps no more
/// than it keeps of all rows.
pub proof fn lemma_selection_of_selection(
    rows: Seq<HistoryEntryView>,
    first: spec_fn(HistoryEntryView) -> bool,
    second: spec_fn(HistoryEntryView) -> bool,
)
    ensures
        rows.filter(first).filter(second).len() <= rows.filter(second).len(),
    decreases rows.len(),
{
    reveal(Seq::filter);
    if rows.len() > 0 {
        let front = rows.drop_last();
        lemma_selection_of_selection(front, first, second);
        if first(rows.last()) {
            front.filter(first).lemma_filter_push(rows.last(), second);
        }
    } else {
        assert(rows.filter(first) =~= rows);
    }
}

/// A selection of rows that stand in creation order stands in creation
/// order.
pub proof fn lemma_selection_in_creation_order(
    rows: Seq<HistoryEntryView>,
    keep: spec_fn(HistoryEntryView) -> bool,
)
    requires
        in_creation_order(rows),
    ensures
        in_creation_order(rows.filter(keep)),
    decreases rows.len(),
{
    reveal(Seq::filter);
    if rows.len() > 0 {
        let front = rows.drop_last();
        assert forall|i: int, j: int| 0 <= i <= j < front.len() implies (
        #[trigger] front[i]).created_at <= (#[trigger] front[j]).created_at by {
            assert(front[i] == rows[i] && front[j] == rows[j]);
        }
        lemma_selection_in_creation_order(front, keep);
        let kept = front.filter(keep);
        if keep(rows.last()) {
            let all = kept.push(rows.last());
            assert forall|i: int, j: int| 0 <= i <= j < all.len() implies (
            #[trigger] all[i]).created_at <= (#[trigger] all[j]).created_at by {
                if j == kept.len() && i < kept.len() {
                    front.lemma_filter_contains_rev(keep, kept[i]);
                    let k = choose|k: int| 0 <= k < front.len() && front[k] == kept[i];
                    assert(rows[k] == front[k]);
                    assert(rows[k].created_at <= rows[rows.len() - 1].created_at);
                } else if j < kept.len() {
                    assert(all[i] == kept[i] && all[j] == kept[j]);
                }
            }
        }
    }
}

/// A selection that keeps only rows that another one keeps is no longer
/// than that other one.
pub proof fn lemma_narrower_selection(
    rows: Seq<HistoryEntryView>,
    narrow: spec_fn(HistoryEntryView) -> bool,
    wide: spec_fn(HistoryEntryView) -> bool,
)
    requires
        forall|e: HistoryEntryView| #[trigger] narrow(e) ==> wide(e),
    ensures
        rows.filter(narrow).len() <= rows.filter(wide).len(),
    decreases rows.len(),
{
    reveal(Seq::filter);
    if rows.len() > 0 {
        lemma_narrower_selection(rows.drop_last(), narrow, wide);
    }
}

/// The first rows of a list hold no more rows of a task than the whole
/// list.
pub proof fn lemma_prefix_selection(
    rows: Seq<HistoryEntryView>,
    n: int,
    keep: spec_fn(HistoryEntryView) -> bool,
)
    requires
        0 <= n <= rows.len(),
    ensures
        rows.subrange(0, n).filter(keep).len() <= rows.filter(keep).len(),
{
    let head = rows.subrange(0, n);
    let tail = rows.subrange(n, rows.len() as int);
    assert(rows =~= head + tail);
    Seq::filter_distributes_over_add(head, tail, keep);
}

/// Selecting twice is selecting once by both rules.
pub proof fn lemma_select_twice(
    rows: Seq<HistoryEntryView>,
    first: spec_fn(HistoryEntryView) -> bool,
    second: spec_fn(HistoryEntryView) -> bool,
)
    ensures
        rows.filter(first).filter(second) == rows.filter(
            |e: HistoryEntryView| first(e) && second(e),
        ),
    decreases rows.len(),
{
    reveal(Seq::filter);
    let both = |e: HistoryEntryView| first(e) && second(e);
    if rows.len() > 0 {
        let front = rows.drop_last();
        lemma_select_twice(front, first, second);
        if first(rows.last()) {
            front.filter(first).lemma_filter_push(rows.last(), second);
        }
    } else {
        assert(rows.filter(first) =~= rows);
    }
}

/// Two rules that keep the same rows select the same rows.
pub proof fn lemma_select_same(
    rows: Seq<HistoryEntryView>,
    one: spec_fn(HistoryEntryView) -> bool,
    other: spec_fn(HistoryEntryView) -> bool,
)
    requires
        forall|i: int| 0 <= i < rows.len() ==> one(#[trigger] rows[i]) == other(rows[i]),
    ensures
        rows.filter(one) == rows.filter(other),
    decreases rows.len(),
{
    reveal(Seq::filter);
    if rows.len() > 0 {
        let front = rows.drop_last();
        assert forall|i: int| 0 <= i < front.len() implies one(#[trigger] front[i]) == other(
            front[i],
        ) by {
            assert(front[i] == rows[i]);
        }
        lemma_select_same(front, one, other);
        assert(rows.last() == rows[rows.len() - 1]);
    }
}

/// A row that a selection holds passes the selection's rule and is one of
/// the rows selected from.
pub proof fn lemma_selected_rows_pass(
    rows: Seq<HistoryEntryView>,
    keep: spec_fn(HistoryEntryView) -> bool,
    row: HistoryEntryView,
)
    ensures
        rows.filter(keep).contains(row) ==> keep(row) && rows.contains(row),
{
    if rows.filter(keep).contains(row) {
        let i = choose|i: int| 0 <= i < rows.filter(keep).len() && rows.filter(keep)[i] == row;
        rows.lemma_filter_pred(keep, i);
        rows.lemma_filter_contains_rev(keep, row);
    }
}

} // verus!
