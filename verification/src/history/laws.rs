//! What holds of the build history whatever is done with it.

use vstd::prelude::*;
use crate::history::entry::{HistoryEntryView, NewEntryView};
use crate::history::model::{
    data_of, inserted, live, live_of_session, live_of_task, live_of_workspace, new_entry,
    not_of_task, of_task, oldest_of_task, replayed, well_formed, MAX_ENTRIES_PER_TASK,
};
use crate::history::selection::{
    lemma_filter_one, lemma_filter_remove, lemma_narrower_selection, lemma_oldest_of_task,
    lemma_prefix_selection, lemma_select_same, lemma_select_twice, lemma_selected_rows_pass,
    lemma_selection_in_creation_order, lemma_selection_of_selection,
};

verus! {

/// Writing a row into a well-formed store leaves a well-formed store, in
/// which the new row is the last one.
pub proof fn lemma_inserted_is_well_formed(
    rows: Seq<HistoryEntryView>,
    retention: int,
    id: u128,
    data: NewEntryView,
    now: int,
)
    requires
        well_formed(rows, retention),
    ensures
        well_formed(inserted(rows, new_entry(rows, retention, id, data, now)), retention),
        inserted(rows, new_entry(rows, retention, id, data, now)).len() > 0,
        inserted(rows, new_entry(rows, retention, id, data, now)).last() == new_entry(
            rows,
            retention,
            id,
            data,
            now,
        ),
{
    let entry = new_entry(rows, retention, id, data, now);
    let pushed = rows.push(entry);
    let task_id = entry.task_id;
    assert forall|j: int, k: int| 0 <= j <= k < pushed.len() implies (
    #[trigger] pushed[j]).created_at <= (#[trigger] pushed[k]).created_at by {
        if k == rows.len() {
            if j < rows.len() {
                assert(rows[j].created_at <= rows.last().created_at);
            }
        } else {
            assert(pushed[j] == rows[j] && pushed[k] == rows[k]);
        }
    }
    assert forall|t: u128|
        pushed.filter(of_task(t)).len() == rows.filter(of_task(t)).len() + (if t == task_id {
            1int
        } else {
            0int
        }) by {
        rows.lemma_filter_push(entry, of_task(t));
    }
    assert(rows.filter(of_task(task_id)).len() <= MAX_ENTRIES_PER_TASK);
    if pushed.filter(of_task(task_id)).len() > MAX_ENTRIES_PER_TASK {
        let i = oldest_of_task(pushed, task_id);
        lemma_oldest_of_task(pushed, task_id);
        let after = pushed.remove(i);
        assert(i < pushed.len());
        // the cap is at least one, so the oldest row of the task is not the new one
        assert(i < rows.len()) by {
            if i == rows.len() {
                assert forall|j: int| 0 <= j < rows.len() implies !of_task(task_id)(rows[j]) by {
                    assert(pushed[j] == rows[j]);
                }
                rows.lemma_all_neg_filter_empty(of_task(task_id));
            }
        }
        assert(after.last() == entry);
        assert forall|j: int| 0 <= j < after.len() implies (#[trigger] after[j]).expires_at
            == after[j].created_at + retention by {
            if j < i {
                assert(after[j] == pushed[j]);
            } else {
                assert(after[j] == pushed[j + 1]);
            }
            if j + 1 < after.len() || j < i {
                let jj = if j < i {
                    j
                } else {
                    j + 1
                };
                if jj < rows.len() {
                    assert(pushed[jj] == rows[jj]);
                }
            }
        }
        assert forall|j: int, k: int| 0 <= j <= k < after.len() implies (
        #[trigger] after[j]).created_at <= (#[trigger] after[k]).created_at by {
            let jj = if j < i {
                j
            } else {
                j + 1
            };
            let kk = if k < i {
                k
            } else {
                k + 1
            };
            assert(after[j] == pushed[jj]);
            assert(after[k] == pushed[kk]);
        }
        assert forall|t: u128| #[trigger]
            after.filter(of_task(t)).len() <= MAX_ENTRIES_PER_TASK by {
            lemma_filter_remove(pushed, i, of_task(t));
            assert(rows.filter(of_task(t)).len() <= MAX_ENTRIES_PER_TASK);
        }
    } else {
        assert forall|j: int| 0 <= j < pushed.len() implies (#[trigger] pushed[j]).expires_at
            == pushed[j].created_at + retention by {
            if j < rows.len() {
                assert(pushed[j] == rows[j]);
            }
        }
        assert forall|t: u128| #[trigger]
            pushed.filter(of_task(t)).len() <= MAX_ENTRIES_PER_TASK by {
            assert(rows.filter(of_task(t)).len() <= MAX_ENTRIES_PER_TASK);
        }
    }
}

/// A selection of the rows of a well-formed store is well-formed: removing
/// rows breaks none of the store's rules.
pub proof fn lemma_selection_is_well_formed(
    rows: Seq<HistoryEntryView>,
    retention: int,
    keep: spec_fn(HistoryEntryView) -> bool,
)
    requires
        well_formed(rows, retention),
    ensures
        well_formed(rows.filter(keep), retention),
{
    let kept = rows.filter(keep);
    assert forall|i: int| 0 <= i < kept.len() implies (#[trigger] kept[i]).expires_at
        == kept[i].created_at + retention by {
        rows.lemma_filter_contains_rev(keep, kept[i]);
        let k = choose|k: int| 0 <= k < rows.len() && rows[k] == kept[i];
        assert(rows[k].expires_at == rows[k].created_at + retention);
    }
    lemma_selection_in_creation_order(rows, keep);
    assert forall|task_id: u128| #[trigger]
        kept.filter(of_task(task_id)).len() <= MAX_ENTRIES_PER_TASK by {
        lemma_selection_of_selection(rows, keep, of_task(task_id));
        assert(rows.filter(of_task(task_id)).len() <= MAX_ENTRIES_PER_TASK);
    }
}

/// At no instant does a reader see more rows of a task than the cap.
pub proof fn lemma_live_rows_within_cap(
    rows: Seq<HistoryEntryView>,
    retention: int,
    task_id: u128,
    now: int,
)
    requires
        well_formed(rows, retention),
    ensures
        rows.filter(live_of_task(task_id, now)).len() <= MAX_ENTRIES_PER_TASK,
{
    lemma_narrower_selection(rows, live_of_task(task_id, now), of_task(task_id));
    assert(rows.filter(of_task(task_id)).len() <= MAX_ENTRIES_PER_TASK);
}

/// The row that was written last is there for every reader until it
/// expires: the cap never evicts it.
pub proof fn lemma_written_row_is_visible(
    rows: Seq<HistoryEntryView>,
    retention: int,
    id: u128,
    data: NewEntryView,
    now: int,
    later: int,
)
    requires
        well_formed(rows, retention),
        later <= now + retention,
    ensures
        inserted(rows, new_entry(rows, retention, id, data, now)).filter(
            live_of_task(data.task_id, later),
        ).contains(new_entry(rows, retention, id, data, now)),
{
    let entry = new_entry(rows, retention, id, data, now);
    let after = inserted(rows, entry);
    lemma_inserted_is_well_formed(rows, retention, id, data, now);
    assert(after[after.len() - 1] == entry);
    after.lemma_filter_contains(live_of_task(data.task_id, later), after.len() - 1);
}

/// A row whose expiry has elapsed is in no result of a read, whether or
/// not it has been removed.
pub proof fn lemma_expired_row_is_hidden(
    rows: Seq<HistoryEntryView>,
    row: HistoryEntryView,
    id: u128,
    now: int,
)
    requires
        row.expires_at < now,
    ensures
        !rows.filter(live_of_task(id, now)).contains(row),
        !rows.filter(live_of_workspace(id, now)).contains(row),
        !rows.filter(live_of_session(id, now)).contains(row),
        !rows.filter(live(now)).contains(row),
{
    lemma_selected_rows_pass(rows, live_of_task(id, now), row);
    lemma_selected_rows_pass(rows, live_of_workspace(id, now), row);
    lemma_selected_rows_pass(rows, live_of_session(id, now), row);
    lemma_selected_rows_pass(rows, live(now), row);
}

/// Removing the expired rows changes nothing for a reader at the same
/// instant, and doing it a second time removes nothing more.
pub proof fn lemma_cleanup_is_unseen_and_idempotent(
    rows: Seq<HistoryEntryView>,
    id: u128,
    now: int,
)
    ensures
        rows.filter(live(now)).filter(live_of_task(id, now)) == rows.filter(
            live_of_task(id, now),
        ),
        rows.filter(live(now)).filter(live_of_workspace(id, now)) == rows.filter(
            live_of_workspace(id, now),
        ),
        rows.filter(live(now)).filter(live_of_session(id, now)) == rows.filter(
            live_of_session(id, now),
        ),
        rows.filter(live(now)).filter(live(now)) == rows.filter(live(now)),
{
    lemma_select_twice(rows, live(now), live_of_task(id, now));
    lemma_select_same(
        rows,
        |e: HistoryEntryView| live(now)(e) && live_of_task(id, now)(e),
        live_of_task(id, now),
    );
    lemma_select_twice(rows, live(now), live_of_workspace(id, now));
    lemma_select_same(
        rows,
        |e: HistoryEntryView| live(now)(e) && live_of_workspace(id, now)(e),
        live_of_workspace(id, now),
    );
    lemma_select_twice(rows, live(now), live_of_session(id, now));
    lemma_select_same(
        rows,
        |e: HistoryEntryView| live(now)(e) && live_of_session(id, now)(e),
        live_of_session(id, now),
    );
    lemma_select_twice(rows, live(now), live(now));
    lemma_select_same(rows, |e: HistoryEntryView| live(now)(e) && live(now)(e), live(now));
}

/// Once the rows of a task have been deleted, a reader finds none of them,
/// at whatever instant, and the rows of other tasks are found as before.
pub proof fn lemma_deleted_task_is_empty(
    rows: Seq<HistoryEntryView>,
    task_id: u128,
    other: u128,
    now: int,
)
    ensures
        rows.filter(not_of_task(task_id)).filter(live_of_task(task_id, now)).len() == 0,
        other != task_id ==> rows.filter(not_of_task(task_id)).filter(live_of_task(other, now))
            == rows.filter(live_of_task(other, now)),
{
    let left = rows.filter(not_of_task(task_id));
    lemma_select_twice(rows, not_of_task(task_id), live_of_task(task_id, now));
    let both = |e: HistoryEntryView| not_of_task(task_id)(e) && live_of_task(task_id, now)(e);
    rows.lemma_all_neg_filter_empty(both);
    if other != task_id {
        lemma_select_twice(rows, not_of_task(task_id), live_of_task(other, now));
        lemma_select_same(
            rows,
            |e: HistoryEntryView| not_of_task(task_id)(e) && live_of_task(other, now)(e),
            live_of_task(other, now),
        );
    }
}

/// Rows that obey the rules of a store come out of a replay as they went
/// in: nothing is stamped anew and nothing is evicted.
pub proof fn lemma_replay_keeps_well_formed_rows(rows: Seq<HistoryEntryView>, retention: int)
    requires
        well_formed(rows, retention),
    ensures
        replayed(rows, retention) == rows,
    decreases rows.len(),
{
    if rows.len() > 0 {
        let front = rows.drop_last();
        let row = rows.last();
        assert(front =~= rows.subrange(0, rows.len() - 1));
        assert(well_formed(front, retention)) by {
            assert forall|i: int| 0 <= i < front.len() implies (#[trigger] front[i]).expires_at
                == front[i].created_at + retention by {
                assert(front[i] == rows[i]);
            }
            assert forall|i: int, j: int| 0 <= i <= j < front.len() implies (
            #[trigger] front[i]).created_at <= (#[trigger] front[j]).created_at by {
                assert(front[i] == rows[i] && front[j] == rows[j]);
            }
            assert forall|task_id: u128| #[trigger]
                front.filter(of_task(task_id)).len() <= MAX_ENTRIES_PER_TASK by {
                lemma_prefix_selection(rows, rows.len() - 1, of_task(task_id));
                assert(rows.filter(of_task(task_id)).len() <= MAX_ENTRIES_PER_TASK);
            }
        }
        lemma_replay_keeps_well_formed_rows(front, retention);
        let entry = new_entry(front, retention, row.id, data_of(row), row.created_at);
        if front.len() > 0 {
            assert(front.last() == rows[rows.len() - 2]);
            assert(rows[rows.len() - 2].created_at <= rows[rows.len() - 1].created_at);
        }
        assert(row == rows[rows.len() - 1]);
        assert(row.expires_at == row.created_at + retention);
        assert(entry == row);
        assert(front.push(row) =~= rows);
        assert(rows.filter(of_task(row.task_id)).len() <= MAX_ENTRIES_PER_TASK);
    }
}

/// The cap is enforced first in, first out: where a task is at its cap, a
/// new row takes the place of the task's oldest row; where it is below, the
/// new row is added and nothing leaves. The rows of every other task stay
/// as they are.
pub proof fn lemma_insert_is_first_in_first_out(
    rows: Seq<HistoryEntryView>,
    retention: int,
    id: u128,
    data: NewEntryView,
    now: int,
    other: u128,
)
    requires
        well_formed(rows, retention),
    ensures
        rows.filter(of_task(data.task_id)).len() < MAX_ENTRIES_PER_TASK ==> inserted(
            rows,
            new_entry(rows, retention, id, data, now),
        ).filter(of_task(data.task_id)) == rows.filter(of_task(data.task_id)).push(
            new_entry(rows, retention, id, data, now),
        ),
        rows.filter(of_task(data.task_id)).len() == MAX_ENTRIES_PER_TASK ==> inserted(
            rows,
            new_entry(rows, retention, id, data, now),
        ).filter(of_task(data.task_id)) == rows.filter(of_task(data.task_id)).drop_first().push(
            new_entry(rows, retention, id, data, now),
        ),
        other != data.task_id ==> inserted(
            rows,
            new_entry(rows, retention, id, data, now),
        ).filter(of_task(other)) == rows.filter(of_task(other)),
{
    let entry = new_entry(rows, retention, id, data, now);
    let task_id = data.task_id;
    let pushed = rows.push(entry);
    let keep = of_task(task_id);
    rows.lemma_filter_push(entry, keep);
    rows.lemma_filter_push(entry, of_task(other));
    assert(rows.filter(keep).len() <= MAX_ENTRIES_PER_TASK);
    if pushed.filter(keep).len() > MAX_ENTRIES_PER_TASK {
        let i = oldest_of_task(pushed, task_id);
        lemma_oldest_of_task(pushed, task_id);
        lemma_filter_remove(pushed, i, keep);
        lemma_filter_remove(pushed, i, of_task(other));
        let head = pushed.subrange(0, i);
        let tail = pushed.subrange(i + 1, pushed.len() as int);
        assert forall|j: int| 0 <= j < head.len() implies !keep(#[trigger] head[j]) by {
            assert(head[j] == pushed[j]);
        }
        head.lemma_all_neg_filter_empty(keep);
        assert(head.filter(keep) =~= Seq::<HistoryEntryView>::empty());
        assert(pushed =~= head + seq![pushed[i]] + tail);
        Seq::filter_distributes_over_add(head, seq![pushed[i]], keep);
        Seq::filter_distributes_over_add(head + seq![pushed[i]], tail, keep);
        lemma_filter_one(pushed[i], keep);
        assert(pushed.filter(keep) =~= seq![pushed[i]] + tail.filter(keep));
        assert(pushed.remove(i).filter(keep) =~= tail.filter(keep));
        assert(pushed.filter(keep).drop_first() =~= tail.filter(keep));
        assert(rows.filter(keep).push(entry).drop_first() =~= rows.filter(keep).drop_first().push(
            entry,
        ));
    }
}

/// Every row of a well-formed store expires strictly after it was
/// created, one retention window later.
pub proof fn lemma_rows_expire_after_creation(rows: Seq<HistoryEntryView>, retention: int, i: int)
    requires
        well_formed(rows, retention),
        0 <= i < rows.len(),
    ensures
        rows[i].expires_at > rows[i].created_at,
        rows[i].expires_at - rows[i].created_at == retention,
{
}

} // verus!
