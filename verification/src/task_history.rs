//! The record of the changes that were made to a task.

use vstd::prelude::*;
use crate::text::{clone_opt, opt_text, owned, str_eq};

verus! {

/// What kind of change an entry records.
#[derive(Debug, Clone, Copy, PartialEq, Eq, Structural)]
pub enum TaskHistoryEventType {
    StatusChanged,
    DescriptionChanged,
    TitleChanged,
    PrBodyUpdated,
    ChangeRequested,
    Other,
}

impl TaskHistoryEventType {
    /// The snake-case spelling under which the kind is exchanged.
    pub open spec fn name(self) -> Seq<char> {
        match self {
            TaskHistoryEventType::StatusChanged => "status_changed"@,
            TaskHistoryEventType::DescriptionChanged => "description_changed"@,
            TaskHistoryEventType::TitleChanged => "title_changed"@,
            TaskHistoryEventType::PrBodyUpdated => "pr_body_updated"@,
            TaskHistoryEventType::ChangeRequested => "change_requested"@,
            TaskHistoryEventType::Other => "other"@,
        }
    }

    /// The spelling of the kind.
    pub fn as_str(&self) -> (r: &'static str)
        ensures
            r@ == self.name(),
    {
        match self {
            TaskHistoryEventType::StatusChanged => "status_changed",
            TaskHistoryEventType::DescriptionChanged => "description_changed",
            TaskHistoryEventType::TitleChanged => "title_changed",
            TaskHistoryEventType::PrBodyUpdated => "pr_body_updated",
            TaskHistoryEventType::ChangeRequested => "change_requested",
            TaskHistoryEventType::Other => "other",
        }
    }

    /// The spelling of the kind, as a string of its own.
    pub fn to_string(&self) -> (r: String)
        ensures
            r@ == self.name(),
    {
        owned(self.as_str())
    }

    /// The kind that is spelled `s`, if there is one.
    pub fn parse(s: &str) -> (r: Option<Self>)
        ensures
            r matches Some(kind) ==> kind.name() == s@,
            r is None ==> forall|kind: TaskHistoryEventType| kind.name() != s@,
    {
        if str_eq(s, "status_changed") {
            Some(TaskHistoryEventType::StatusChanged)
        } else if str_eq(s, "description_changed") {
            Some(TaskHistoryEventType::DescriptionChanged)
        } else if str_eq(s, "title_changed") {
            Some(TaskHistoryEventType::TitleChanged)
        } else if str_eq(s, "pr_body_updated") {
            Some(TaskHistoryEventType::PrBodyUpdated)
        } else if str_eq(s, "change_requested") {
            Some(TaskHistoryEventType::ChangeRequested)
        } else if str_eq(s, "other") {
            Some(TaskHistoryEventType::Other)
        } else {
            None
        }
    }
}

/// What an entry of the task history is, as plain values.
pub struct TaskHistoryView {
    pub id: u128,
    pub task_id: u128,
    pub event_type: TaskHistoryEventType,
    pub old_value: Option<Seq<char>>,
    pub new_value: Option<Seq<char>>,
    pub metadata: Option<Seq<char>>,
    pub created_at: int,
}

/// One change that was made to a task.
#[derive(Debug)]
pub struct TaskHistory {
    pub id: u128,
    pub task_id: u128,
    pub event_type: TaskHistoryEventType,
    pub old_value: Option<String>,
    pub new_value: Option<String>,
    pub metadata: Option<String>,
    pub created_at: i64,
}

impl View for TaskHistory {
    type V = TaskHistoryView;

    open spec fn view(&self) -> TaskHistoryView {
        TaskHistoryView {
            id: self.id,
            task_id: self.task_id,
            event_type: self.event_type,
            old_value: opt_text(self.old_value),
            new_value: opt_text(self.new_value),
            metadata: opt_text(self.metadata),
            created_at: self.created_at as int,
        }
    }
}

impl Clone for TaskHistory {
    fn clone(&self) -> (r: Self)
        ensures
            r == *self,
    {
        TaskHistory {
            id: self.id,
            task_id: self.task_id,
            event_type: self.event_type,
            old_value: clone_opt(&self.old_value),
            new_value: clone_opt(&self.new_value),
            metadata: clone_opt(&self.metadata),
            created_at: self.created_at,
        }
    }
}

/// What the caller supplies for a new entry of the task history.
#[derive(Debug)]
pub struct CreateTaskHistory {
    pub task_id: u128,
    pub event_type: TaskHistoryEventType,
    pub old_value: Option<String>,
    pub new_value: Option<String>,
    pub metadata: Option<String>,
}

impl Clone for CreateTaskHistory {
    fn clone(&self) -> (r: Self)
        ensures
            r == *self,
    {
        CreateTaskHistory {
            task_id: self.task_id,
            event_type: self.event_type,
            old_value: clone_opt(&self.old_value),
            new_value: clone_opt(&self.new_value),
            metadata: clone_opt(&self.metadata),
        }
    }
}

} // verus!
