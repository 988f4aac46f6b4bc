//! The store of the build history.

use vstd::prelude::*;
use crate::history::entry::{
    entry_views, CreateTaskBuildHistory, HistoryEntryView, TaskBuildHistory,
};
use crate::history::laws::{
    lemma_inserted_is_well_formed, lemma_live_rows_within_cap, lemma_selection_is_well_formed,
};
use crate::history::model::{
    data_of, in_creation_order, inserted, is_random_id, live, live_of_session, live_of_task,
    live_of_workspace, new_entry, not_of_task, of_task, oldest_of_task, replayed, well_formed,
    MAX_ENTRIES_PER_TASK,
};
use crate::history::selection::{lemma_oldest_of_task, lemma_selection_in_creation_order};
use crate::text::clone_opt;

verus! {

/// Draws a fresh identifier from `uuid::Uuid::new_v4` and hands it back as
/// the number that `Uuid::as_u128` gives for it. The identifier is random:
/// all that is claimed of it is that it bears the version and the variant
/// that `new_v4` sets in every identifier it makes.
#[verifier::external_body]
fn mint_id() -> (r: u128)
    ensures
        is_random_id(r),
{
    uuid::Uuid::new_v4().as_u128()
}

/// The build history of all tasks.
pub struct BuildHistoryStore {
    rows: Vec<TaskBuildHistory>,
    retention: i64,
}

impl BuildHistoryStore {
    /// The rows of the store, oldest first.
    pub closed spec fn view(&self) -> Seq<HistoryEntryView> {
        entry_views(self.rows@)
    }

    /// The retention window: how long after its creation a row expires.
    pub closed spec fn retention(&self) -> int {
        self.retention as int
    }

    /// The store's invariant, which every operation keeps.
    pub open spec fn wf(&self) -> bool {
        well_formed(self@, self.retention())
    }

    /// An empty store whose rows will expire `retention` seconds after
    /// their creation.
    pub fn new(retention: i64) -> (r: Self)
        requires
            retention > 0,
        ensures
            r.wf(),
            r@ == Seq::<HistoryEntryView>::empty(),
            r.retention() == retention,
    {
        let r = BuildHistoryStore { rows: Vec::new(), retention };
        proof {
            assert(r@ =~= Seq::<HistoryEntryView>::empty());
            reveal(Seq::filter);
            assert forall|task_id: u128| #[trigger]
                r@.filter(of_task(task_id)).len() <= MAX_ENTRIES_PER_TASK by {
                r@.lemma_filter_len(of_task(task_id));
            }
        }
        r
    }

    /// The retention window of the store.
    pub fn retention_window(&self) -> (r: i64)
        ensures
            r == self.retention(),
    {
        self.retention
    }

    /// How many rows the store holds for a task, expired or not.
    fn rows_of_task(&self, task_id: u128) -> (r: usize)
        ensures
            r == self@.filter(of_task(task_id)).len(),
    {
        let mut count: usize = 0;
        let mut i: usize = 0;
        proof {
            assert(self@.subrange(0, 0) =~= Seq::<HistoryEntryView>::empty());
            self@.subrange(0, 0).lemma_filter_len(of_task(task_id));
        }
        while i < self.rows.len()
            invariant
                i <= self.rows@.len(),
                self@.len() == self.rows@.len(),
                count <= i,
                count == self@.subrange(0, i as int).filter(of_task(task_id)).len(),
            decreases self.rows@.len() - i,
        {
            proof {
                assert(self@.subrange(0, i + 1) =~= self@.subrange(0, i as int).push(
                    self@[i as int],
                ));
                self@.subrange(0, i as int).lemma_filter_push(self@[i as int], of_task(task_id));
            }
            if self.rows[i].task_id == task_id {
                count += 1;
            }
            i += 1;
        }
        assert(self@.subrange(0, i as int) =~= self@);
        count
    }

    /// Where the oldest row of a task stands.
    fn oldest_row_of_task(&self, task_id: u128) -> (r: usize)
        ensures
            r == oldest_of_task(self@, task_id),
    {
        let mut i: usize = 0;
        assert(self@.subrange(0, self@.len() as int) =~= self@);
        while i < self.rows.len() && self.rows[i].task_id != task_id
            invariant
                i <= self.rows@.len(),
                self@.len() == self.rows@.len(),
                oldest_of_task(self@, task_id) == i + oldest_of_task(
                    self@.subrange(i as int, self@.len() as int),
                    task_id,
                ),
            decreases self.rows@.len() - i,
        {
            proof {
                let rest = self@.subrange(i as int, self@.len() as int);
                assert(rest[0] == self@[i as int]);
                assert(rest.drop_first() =~= self@.subrange(i + 1, self@.len() as int));
            }
            i += 1;
        }
        proof {
            let rest = self@.subrange(i as int, self@.len() as int);
            if i < self.rows@.len() {
                assert(rest[0] == self@[i as int]);
            }
        }
        i
    }

    /// Writes a row for `data` under the identifier `id`, stamped with the
    /// present instant `now`, and enforces the cap of the task in the same
    /// step: where the task then has more rows than the cap, its oldest row
    /// is removed. The row that was written is handed back.
    pub fn insert(&mut self, id: u128, data: &CreateTaskBuildHistory, now: i64) -> (r:
        TaskBuildHistory)
        requires
            old(self).wf(),
            now + old(self).retention() <= i64::MAX,
        ensures
            final(self).wf(),
            final(self).retention() == old(self).retention(),
            r@ == new_entry(old(self)@, old(self).retention(), id, data@, now as int),
            final(self)@ == inserted(old(self)@, r@),
    {
        let n = self.rows.len();
        let created_at = if n > 0 && self.rows[n - 1].created_at > now {
            self.rows[n - 1].created_at
        } else {
            now
        };
        proof {
            if n > 0 {
                assert(self@[n - 1] == self.rows@[n - 1]@);
                assert(self@.last().expires_at == self@.last().created_at + self.retention());
            }
            lemma_inserted_is_well_formed(
                self@,
                self.retention(),
                id,
                data@,
                now as int,
            );
        }
        let entry = TaskBuildHistory {
            id,
            task_id: data.task_id,
            workspace_id: data.workspace_id,
            session_id: data.session_id,
            context_type: data.context_type,
            content: data.content.clone(),
            metadata: clone_opt(&data.metadata),
            created_at,
            expires_at: created_at + self.retention,
        };
        let written = entry.clone();
        self.rows.push(entry);
        assert(self@ =~= old(self)@.push(written@));
        if self.rows_of_task(data.task_id) > MAX_ENTRIES_PER_TASK {
            let oldest = self.oldest_row_of_task(data.task_id);
            proof {
                lemma_oldest_of_task(self@, data.task_id);
            }
            let ghost before = self@;
            self.rows.remove(oldest);
            assert(self@ =~= before.remove(oldest as int));
        }
        written
    }

    /// Copies of all rows of the store, oldest first, expired or not.
    pub fn rows(&self) -> (r: Vec<TaskBuildHistory>)
        ensures
            entry_views(r@) == self@,
    {
        let mut all: Vec<TaskBuildHistory> = Vec::new();
        let mut i: usize = 0;
        while i < self.rows.len()
            invariant
                i <= self.rows@.len(),
                all@ == self.rows@.subrange(0, i as int),
            decreases self.rows@.len() - i,
        {
            all.push(self.rows[i].clone());
            assert(all@ =~= self.rows@.subrange(0, i + 1));
            i += 1;
        }
        assert(all@ =~= self.rows@);
        all
    }

    /// A store that holds `rows` as if they had been written one after the
    /// other, each under its own identifier and at its own creation time,
    /// or `None` where the expiry of one of them cannot be told in an
    /// `i64`. Rows that obey the store's rules are kept as they are; see
    /// `lemma_replay_keeps_well_formed_rows`.
    pub fn restore(rows: &Vec<TaskBuildHistory>, retention: i64) -> (r: Option<Self>)
        requires
            retention > 0,
        ensures
            r is Some <==> forall|i: int|
                0 <= i < rows@.len() ==> (#[trigger] rows@[i]).created_at + retention <= i64::MAX,
            r matches Some(store) ==> store.wf() && store.retention() == retention && store@
                == replayed(entry_views(rows@), retention as int),
    {
        let ghost all = entry_views(rows@);
        let mut store = BuildHistoryStore::new(retention);
        let mut i: usize = 0;
        assert(all.subrange(0, 0) =~= Seq::<HistoryEntryView>::empty());
        while i < rows.len()
            invariant
                i <= rows@.len(),
                all == entry_views(rows@),
                store.wf(),
                store.retention() == retention,
                store@ == replayed(all.subrange(0, i as int), retention as int),
                forall|j: int|
                    0 <= j < i ==> (#[trigger] rows@[j]).created_at + retention <= i64::MAX,
            decreases rows@.len() - i,
        {
            let row = &rows[i];
            if row.created_at > i64::MAX - retention {
                return None;
            }
            let data = CreateTaskBuildHistory {
                task_id: row.task_id,
                workspace_id: row.workspace_id,
                session_id: row.session_id,
                context_type: row.context_type,
                content: row.content.clone(),
                metadata: clone_opt(&row.metadata),
            };
            proof {
                assert(all.subrange(0, i + 1).drop_last() =~= all.subrange(0, i as int));
                assert(all.subrange(0, i + 1).last() == rows@[i as int]@);
                assert(data@ == data_of(rows@[i as int]@));
            }
            store.insert(row.id, &data, row.created_at);
            i += 1;
        }
        assert(all.subrange(0, i as int) =~= all);
        Some(store)
    }

    /// Writes a row for `data` under a fresh identifier. See `insert` for
    /// what is written and what is evicted.
    pub fn create(&mut self, data: &CreateTaskBuildHistory, now: i64) -> (r: TaskBuildHistory)
        requires
            old(self).wf(),
            now + old(self).retention() <= i64::MAX,
        ensures
            final(self).wf(),
            final(self).retention() == old(self).retention(),
            is_random_id(r.id),
            r@ == new_entry(old(self)@, old(self).retention(), r.id, data@, now as int),
            final(self)@ == inserted(old(self)@, r@),
    {
        let id = mint_id();
        self.insert(id, data, now)
    }

    /// Copies of the rows that `scope` selects at `now`, oldest first.
    fn select(&self, scope: Scope, now: i64) -> (r: Vec<TaskBuildHistory>)
        ensures
            entry_views(r@) == self@.filter(scope.selects(now as int)),
    {
        let ghost keep = scope.selects(now as int);
        let mut found: Vec<TaskBuildHistory> = Vec::new();
        let mut i: usize = 0;
        proof {
            assert(self@.subrange(0, 0) =~= Seq::<HistoryEntryView>::empty());
            self@.subrange(0, 0).lemma_filter_len(keep);
            assert(entry_views(found@) =~= self@.subrange(0, 0).filter(keep));
        }
        while i < self.rows.len()
            invariant
                i <= self.rows@.len(),
                self@.len() == self.rows@.len(),
                keep == scope.selects(now as int),
                entry_views(found@) == self@.subrange(0, i as int).filter(keep),
            decreases self.rows@.len() - i,
        {
            proof {
                assert(self@.subrange(0, i + 1) =~= self@.subrange(0, i as int).push(
                    self@[i as int],
                ));
                self@.subrange(0, i as int).lemma_filter_push(self@[i as int], keep);
            }
            if scope.holds(&self.rows[i], now) {
                let ghost before = found@;
                found.push(self.rows[i].clone());
                assert(entry_views(found@) =~= entry_views(before).push(self@[i as int]));
            }
            i += 1;
        }
        assert(self@.subrange(0, i as int) =~= self@);
        found
    }

    /// The rows of a task whose expiry has not elapsed at `now`, oldest
    /// first.
    pub fn find_by_task_id(&self, task_id: u128, now: i64) -> (r: Vec<TaskBuildHistory>)
        requires
            self.wf(),
        ensures
            entry_views(r@) == self@.filter(live_of_task(task_id, now as int)),
            in_creation_order(entry_views(r@)),
            r@.len() <= MAX_ENTRIES_PER_TASK,
    {
        proof {
            lemma_live_rows_within_cap(self@, self.retention(), task_id, now as int);
            lemma_selection_in_creation_order(self@, live_of_task(task_id, now as int));
        }
        self.select(Scope::Task(task_id), now)
    }

    /// The rows of a workspace whose expiry has not elapsed at `now`,
    /// oldest first.
    pub fn find_by_workspace_id(&self, workspace_id: u128, now: i64) -> (r: Vec<TaskBuildHistory>)
        requires
            self.wf(),
        ensures
            entry_views(r@) == self@.filter(live_of_workspace(workspace_id, now as int)),
            in_creation_order(entry_views(r@)),
    {
        proof {
            lemma_selection_in_creation_order(self@, live_of_workspace(workspace_id, now as int));
        }
        self.select(Scope::Workspace(workspace_id), now)
    }

    /// The rows of a session whose expiry has not elapsed at `now`, oldest
    /// first.
    pub fn find_by_session_id(&self, session_id: u128, now: i64) -> (r: Vec<TaskBuildHistory>)
        requires
            self.wf(),
        ensures
            entry_views(r@) == self@.filter(live_of_session(session_id, now as int)),
            in_creation_order(entry_views(r@)),
    {
        proof {
            lemma_selection_in_creation_order(self@, live_of_session(session_id, now as int));
        }
        self.select(Scope::Session(session_id), now)
    }

    /// How many rows of a task have not expired at `now`.
    pub fn count_by_task_id(&self, task_id: u128, now: i64) -> (r: i64)
        requires
            self.wf(),
        ensures
            r == self@.filter(live_of_task(task_id, now as int)).len(),
            r <= MAX_ENTRIES_PER_TASK,
    {
        let ghost keep = live_of_task(task_id, now as int);
        let mut count: i64 = 0;
        let mut i: usize = 0;
        proof {
            lemma_live_rows_within_cap(self@, self.retention(), task_id, now as int);
            assert(self@.subrange(0, 0) =~= Seq::<HistoryEntryView>::empty());
            self@.subrange(0, 0).lemma_filter_len(keep);
        }
        while i < self.rows.len()
            invariant
                i <= self.rows@.len(),
                self@.len() == self.rows@.len(),
                keep == live_of_task(task_id, now as int),
                self@.filter(keep).len() <= MAX_ENTRIES_PER_TASK,
                count == self@.subrange(0, i as int).filter(keep).len(),
            decreases self.rows@.len() - i,
        {
            proof {
                assert(self@.subrange(0, i + 1) =~= self@.subrange(0, i as int).push(
                    self@[i as int],
                ));
                self@.subrange(0, i as int).lemma_filter_push(self@[i as int], keep);
                assert(self@ =~= self@.subrange(0, i + 1) + self@.subrange(
                    i + 1,
                    self@.len() as int,
                ));
                Seq::filter_distributes_over_add(
                    self@.subrange(0, i + 1),
                    self@.subrange(i + 1, self@.len() as int),
                    keep,
                );
            }
            if self.rows[i].task_id == task_id && self.rows[i].expires_at >= now {
                count += 1;
            }
            i += 1;
        }
        assert(self@.subrange(0, i as int) =~= self@);
        count
    }

    /// The creation time of the oldest row of a task that has not expired
    /// at `now`, or `None` where the task has no such row.
    pub fn get_oldest_entry_date(&self, task_id: u128, now: i64) -> (r: Option<i64>)
        requires
            self.wf(),
        ensures
            r is None <==> self@.filter(live_of_task(task_id, now as int)).len() == 0,
            r matches Some(t) ==> t == self@.filter(
                live_of_task(task_id, now as int),
            )[0].created_at,
            r matches Some(t) ==> forall|i: int|
                0 <= i < self@.filter(live_of_task(task_id, now as int)).len() ==> t <= (
                #[trigger] self@.filter(live_of_task(task_id, now as int))[i]).created_at,
    {
        let ghost keep = live_of_task(task_id, now as int);
        let mut i: usize = 0;
        proof {
            assert(self@.subrange(0, 0) =~= Seq::<HistoryEntryView>::empty());
            self@.subrange(0, 0).lemma_filter_len(keep);
        }
        while i < self.rows.len()
            invariant
                i <= self.rows@.len(),
                self@.len() == self.rows@.len(),
                self.wf(),
                keep == live_of_task(task_id, now as int),
                self@.subrange(0, i as int).filter(keep).len() == 0,
            decreases self.rows@.len() - i,
        {
            proof {
                assert(self@.subrange(0, i + 1) =~= self@.subrange(0, i as int).push(
                    self@[i as int],
                ));
                self@.subrange(0, i as int).lemma_filter_push(self@[i as int], keep);
            }
            if self.rows[i].task_id == task_id && self.rows[i].expires_at >= now {
                proof {
                    let head = self@.subrange(0, i + 1);
                    let tail = self@.subrange(i + 1, self@.len() as int);
                    assert(self@ =~= head + tail);
                    Seq::filter_distributes_over_add(head, tail, keep);
                    assert(head.filter(keep) =~= seq![self@[i as int]]);
                    assert(self@.filter(keep)[0] == self@[i as int]);
                    lemma_selection_in_creation_order(self@, keep);
                }
                return Some(self.rows[i].created_at);
            }
            i += 1;
        }
        assert(self@.subrange(0, i as int) =~= self@);
        None
    }

    /// Removes the rows that `rule` does not keep and says how many they
    /// were.
    fn purge(&mut self, rule: Purge) -> (r: u64)
        requires
            old(self).wf(),
        ensures
            final(self).wf(),
            final(self).retention() == old(self).retention(),
            final(self)@ == old(self)@.filter(rule.keeps()),
            r == old(self)@.len() - final(self)@.len(),
    {
        let ghost keep = rule.keeps();
        let ghost start = self@;
        let n = self.rows.len();
        let mut removed: usize = 0;
        let mut i: usize = 0;
        proof {
            assert(start.subrange(0, 0) =~= Seq::<HistoryEntryView>::empty());
            start.subrange(0, 0).lemma_filter_len(keep);
            assert(self@ =~= start.subrange(0, 0).filter(keep) + start.subrange(0, n as int));
        }
        while i < self.rows.len()
            invariant
                n == start.len(),
                i + removed <= n,
                keep == rule.keeps(),
                self.retention() == old(self).retention(),
                self@.len() == self.rows@.len(),
                self@.len() == n - removed,
                i == start.subrange(0, i + removed).filter(keep).len(),
                self@ == start.subrange(0, i + removed).filter(keep) + start.subrange(
                    i + removed,
                    n as int,
                ),
            decreases self.rows@.len() - i,
        {
            let ghost k = (i + removed) as int;
            proof {
                assert(start.subrange(0, k + 1) =~= start.subrange(0, k).push(start[k]));
                start.subrange(0, k).lemma_filter_push(start[k], keep);
                assert(self@[i as int] == start[k]);
            }
            if rule.keeps_row(&self.rows[i]) {
                proof {
                    assert(self@ =~= start.subrange(0, k + 1).filter(keep) + start.subrange(
                        k + 1,
                        n as int,
                    ));
                }
                i += 1;
            } else {
                let ghost before = self@;
                self.rows.remove(i);
                removed += 1;
                proof {
                    assert(self@ =~= before.remove(i as int));
                    assert(self@ =~= start.subrange(0, k + 1).filter(keep) + start.subrange(
                        k + 1,
                        n as int,
                    ));
                }
            }
        }
        proof {
            assert(start.subrange(0, n as int) =~= start);
            assert(start.subrange(n as int, n as int) =~= Seq::<HistoryEntryView>::empty());
            assert(self@ =~= start.filter(keep));
            lemma_selection_is_well_formed(start, self.retention(), keep);
        }
        removed as u64
    }

    /// Removes every row whose expiry has elapsed at `now` and says how
    /// many they were.
    pub fn cleanup_expired(&mut self, now: i64) -> (r: u64)
        requires
            old(self).wf(),
        ensures
            final(self).wf(),
            final(self).retention() == old(self).retention(),
            final(self)@ == old(self)@.filter(live(now as int)),
            r == old(self)@.len() - final(self)@.len(),
    {
        self.purge(Purge::Expired(now))
    }

    /// Removes every row of a task, expired or not, and says how many they
    /// were.
    pub fn delete_by_task_id(&mut self, task_id: u128) -> (r: u64)
        requires
            old(self).wf(),
        ensures
            final(self).wf(),
            final(self).retention() == old(self).retention(),
            final(self)@ == old(self)@.filter(not_of_task(task_id)),
            r == old(self)@.len() - final(self)@.len(),
    {
        self.purge(Purge::Task(task_id))
    }
}

/// What a read of the history is asked for.
enum Scope {
    Task(u128),
    Workspace(u128),
    Session(u128),
}

impl Scope {
    /// The rows that the scope selects at `now`.
    spec fn selects(self, now: int) -> spec_fn(HistoryEntryView) -> bool {
        match self {
            Scope::Task(id) => live_of_task(id, now),
            Scope::Workspace(id) => live_of_workspace(id, now),
            Scope::Session(id) => live_of_session(id, now),
        }
    }

    /// Whether the scope selects `entry` at `now`.
    fn holds(&self, entry: &TaskBuildHistory, now: i64) -> (r: bool)
        ensures
            r == (self.selects(now as int))(entry@),
    {
        if entry.expires_at < now {
            return false;
        }
        match self {
            Scope::Task(id) => entry.task_id == *id,
            Scope::Workspace(id) => match entry.workspace_id {
                Some(w) => w == *id,
                None => false,
            },
            Scope::Session(id) => match entry.session_id {
                Some(s) => s == *id,
                None => false,
            },
        }
    }
}

/// What a purge of the history removes.
enum Purge {
    /// The rows whose expiry has elapsed at the given instant.
    Expired(i64),
    /// The rows of the given task.
    Task(u128),
}

impl Purge {
    /// The rows that stay.
    spec fn keeps(self) -> spec_fn(HistoryEntryView) -> bool {
        match self {
            Purge::Expired(now) => live(now as int),
            Purge::Task(task_id) => not_of_task(task_id),
        }
    }

    /// Whether `entry` stays.
    fn keeps_row(&self, entry: &TaskBuildHistory) -> (r: bool)
        ensures
            r == (self.keeps())(entry@),
    {
        match self {
            Purge::Expired(now) => entry.expires_at >= *now,
            Purge::Task(task_id) => entry.task_id != *task_id,
        }
    }
}

} // verus!
