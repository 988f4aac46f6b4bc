//! The build history: a log of what happened for a task, bounded in number
//! per task and expiring in time.
//!
//! Time is an `i64` count of seconds since the Unix epoch. The store never
//! reads a clock: every operation that depends on the time takes the
//! present instant from its caller.

pub mod entry;
pub mod laws;
pub mod model;
pub mod selection;
pub mod store;

pub use entry::{
    CreateTaskBuildHistory, HistoryEntryView, NewEntryView, TaskBuildHistory,
    TaskBuildHistoryContextType,
};
pub use model::MAX_ENTRIES_PER_TASK;
pub use store::BuildHistoryStore;
