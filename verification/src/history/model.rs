//! What the build history is and does, stated over plain rows.

use vstd::prelude::*;
use crate::history::entry::{HistoryEntryView, NewEntryView};

verus! {

/// The most entries that the store keeps for one task.
pub const MAX_ENTRIES_PER_TASK: usize = 100;

/// Entries of one task, expired or not.
pub open spec fn of_task(task_id: u128) -> spec_fn(HistoryEntryView) -> bool {
    |e: HistoryEntryView| e.task_id == task_id
}

/// Entries of every task but one.
pub open spec fn not_of_task(task_id: u128) -> spec_fn(HistoryEntryView) -> bool {
    |e: HistoryEntryView| e.task_id != task_id
}

/// Entries whose expiry has not elapsed at `now`.
pub open spec fn live(now: int) -> spec_fn(HistoryEntryView) -> bool {
    |e: HistoryEntryView| e.expires_at >= now
}

/// Entries of one task whose expiry has not elapsed at `now`.
pub open spec fn live_of_task(task_id: u128, now: int) -> spec_fn(HistoryEntryView) -> bool {
    |e: HistoryEntryView| e.task_id == task_id && e.expires_at >= now
}

/// Entries of one workspace whose expiry has not elapsed at `now`.
pub open spec fn live_of_workspace(workspace_id: u128, now: int) -> spec_fn(
    HistoryEntryView,
) -> bool {
    |e: HistoryEntryView| e.workspace_id == Some(workspace_id) && e.expires_at >= now
}

/// Entries of one session whose expiry has not elapsed at `now`.
pub open spec fn live_of_session(session_id: u128, now: int) -> spec_fn(HistoryEntryView) -> bool {
    |e: HistoryEntryView| e.session_id == Some(session_id) && e.expires_at >= now
}

/// Creation times never decrease along `rows`.
pub open spec fn in_creation_order(rows: Seq<HistoryEntryView>) -> bool {
    forall|i: int, j: int|
        0 <= i <= j < rows.len() ==> (#[trigger] rows[i]).created_at <= (
        #[trigger] rows[j]).created_at
}

/// What must hold of the rows of a store with the given retention window:
/// the window is positive; every row expires exactly one window after it
/// was created; rows stand in the order of their creation; and no task has
/// more rows than the cap.
pub open spec fn well_formed(rows: Seq<HistoryEntryView>, retention: int) -> bool {
    &&& retention > 0
    &&& forall|i: int|
        0 <= i < rows.len() ==> (#[trigger] rows[i]).expires_at == rows[i].created_at + retention
    &&& in_creation_order(rows)
    &&& forall|task_id: u128| #[trigger]
        rows.filter(of_task(task_id)).len() <= MAX_ENTRIES_PER_TASK
}

/// The instant with which a new row is stamped: the present instant, or
/// the creation time of the newest row where the caller's clock lies
/// behind it, so that creation times never decrease.
pub open spec fn stamp(rows: Seq<HistoryEntryView>, now: int) -> int {
    if rows.len() > 0 && rows.last().created_at > now {
        rows.last().created_at
    } else {
        now
    }
}

/// The row that is written for `data` under the identifier `id`.
pub open spec fn new_entry(
    rows: Seq<HistoryEntryView>,
    retention: int,
    id: u128,
    data: NewEntryView,
    now: int,
) -> HistoryEntryView {
    HistoryEntryView {
        id,
        task_id: data.task_id,
        workspace_id: data.workspace_id,
        session_id: data.session_id,
        context_type: data.context_type,
        content: data.content,
        metadata: data.metadata,
        created_at: stamp(rows, now),
        expires_at: stamp(rows, now) + retention,
    }
}

/// Where the oldest row of a task stands, or the number of rows where the
/// task has none.
pub open spec fn oldest_of_task(rows: Seq<HistoryEntryView>, task_id: u128) -> int
    decreases rows.len(),
{
    if rows.len() == 0 {
        0
    } else if rows[0].task_id == task_id {
        0
    } else {
        1 + oldest_of_task(rows.drop_first(), task_id)
    }
}

/// The rows after one more than the cap allows has been written for a
/// task: the oldest row of the task is gone.
pub open spec fn evicted(rows: Seq<HistoryEntryView>, task_id: u128) -> Seq<HistoryEntryView> {
    if rows.filter(of_task(task_id)).len() > MAX_ENTRIES_PER_TASK {
        rows.remove(oldest_of_task(rows, task_id))
    } else {
        rows
    }
}

/// The rows after `entry` has been written: it is appended, and the cap of
/// its task is enforced.
pub open spec fn inserted(rows: Seq<HistoryEntryView>, entry: HistoryEntryView) -> Seq<
    HistoryEntryView,
> {
    evicted(rows.push(entry), entry.task_id)
}

/// What was supplied for a row when it was written.
pub open spec fn data_of(row: HistoryEntryView) -> NewEntryView {
    NewEntryView {
        task_id: row.task_id,
        workspace_id: row.workspace_id,
        session_id: row.session_id,
        context_type: row.context_type,
        content: row.content,
        metadata: row.metadata,
    }
}

/// The rows of a store into which `rows` were written one after the other,
/// each under its own identifier and at its own creation time.
pub open spec fn replayed(rows: Seq<HistoryEntryView>, retention: int) -> Seq<HistoryEntryView>
    decreases rows.len(),
{
    if rows.len() == 0 {
        Seq::empty()
    } else {
        let before = replayed(rows.drop_last(), retention);
        inserted(
            before,
            new_entry(
                before,
                retention,
                rows.last().id,
                data_of(rows.last()),
                rows.last().created_at,
            ),
        )
    }
}

/// Whether a number has the marks of a random identifier: the version
/// field of a UUID holds 4 and its variant field holds binary 10.
pub open spec fn is_random_id(id: u128) -> bool {
    (id >> 76) & 0xf == 4 && (id >> 62) & 0x3 == 2
}

} // verus!
