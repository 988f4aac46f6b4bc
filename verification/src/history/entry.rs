//! The entries of the build history and what is supplied to create one.

use vstd::prelude::*;
use crate::text::{clone_opt, owned, str_eq};

verus! {

/// What kind of event an entry records.
#[derive(Debug, Clone, Copy, PartialEq, Eq, Structural)]
pub enum TaskBuildHistoryContextType {
    ChatMessage,
    ExecutionStep,
    AgentTurn,
    SetupComplete,
    Error,
    StatusChange,
}

impl TaskBuildHistoryContextType {
    /// The snake-case spelling under which the kind is stored and exchanged.
    pub open spec fn name(self) -> Seq<char> {
        match self {
            TaskBuildHistoryContextType::ChatMessage => "chat_message"@,
            TaskBuildHistoryContextType::ExecutionStep => "execution_step"@,
            TaskBuildHistoryContextType::AgentTurn => "agent_turn"@,
            TaskBuildHistoryContextType::SetupComplete => "setup_complete"@,
            TaskBuildHistoryContextType::Error => "error"@,
            TaskBuildHistoryContextType::StatusChange => "status_change"@,
        }
    }

    /// The spelling of the kind.
    pub fn as_str(&self) -> (r: &'static str)
        ensures
            r@ == self.name(),
    {
        match self {
            TaskBuildHistoryContextType::ChatMessage => "chat_message",
            TaskBuildHistoryContextType::ExecutionStep => "execution_step",
            TaskBuildHistoryContextType::AgentTurn => "agent_turn",
            TaskBuildHistoryContextType::SetupComplete => "setup_complete",
            TaskBuildHistoryContextType::Error => "error",
            TaskBuildHistoryContextType::StatusChange => "status_change",
        }
    }

    /// The spelling of the kind, as a string of its own.
    pub fn to_string(&self) -> (r: String)
        ensures
            r@ == self.name(),
    {
        owned(self.as_str())
    }

    /// The kind that is spelled `s`, if there is one.
    pub fn parse(s: &str) -> (r: Option<Self>)
        ensures
            r matches Some(kind) ==> kind.name() == s@,
            r is None ==> forall|kind: TaskBuildHistoryContextType| kind.name() != s@,
    {
        if str_eq(s, "chat_message") {
            Some(TaskBuildHistoryContextType::ChatMessage)
        } else if str_eq(s, "execution_step") {
            Some(TaskBuildHistoryContextType::ExecutionStep)
        } else if str_eq(s, "agent_turn") {
            Some(TaskBuildHistoryContextType::AgentTurn)
        } else if str_eq(s, "setup_complete") {
            Some(TaskBuildHistoryContextType::SetupComplete)
        } else if str_eq(s, "error") {
            Some(TaskBuildHistoryContextType::Error)
        } else if str_eq(s, "status_change") {
            Some(TaskBuildHistoryContextType::StatusChange)
        } else {
            None
        }
    }
}

/// What an entry of the build history is, as plain values.
pub struct HistoryEntryView {
    pub id: u128,
    pub task_id: u128,
    pub workspace_id: Option<u128>,
    pub session_id: Option<u128>,
    pub context_type: TaskBuildHistoryContextType,
    pub content: Seq<char>,
    pub metadata: Option<Seq<char>>,
    pub created_at: int,
    pub expires_at: int,
}

/// One entry of the build history. An entry is written once and never
/// changed: its expiry is fixed when it is created.
#[derive(Debug)]
pub struct TaskBuildHistory {
    pub id: u128,
    pub task_id: u128,
    pub workspace_id: Option<u128>,
    pub session_id: Option<u128>,
    pub context_type: TaskBuildHistoryContextType,
    pub content: String,
    pub metadata: Option<String>,
    pub created_at: i64,
    pub expires_at: i64,
}

impl View for TaskBuildHistory {
    type V = HistoryEntryView;

    open spec fn view(&self) -> HistoryEntryView {
        HistoryEntryView {
            id: self.id,
            task_id: self.task_id,
            workspace_id: self.workspace_id,
            session_id: self.session_id,
            context_type: self.context_type,
            content: self.content@,
            metadata: match self.metadata {
                Some(m) => Some(m@),
                None => None,
            },
            created_at: self.created_at as int,
            expires_at: self.expires_at as int,
        }
    }
}

impl Clone for TaskBuildHistory {
    fn clone(&self) -> (r: Self)
        ensures
            r == *self,
    {
        TaskBuildHistory {
            id: self.id,
            task_id: self.task_id,
            workspace_id: self.workspace_id,
            session_id: self.session_id,
            context_type: self.context_type,
            content: self.content.clone(),
            metadata: clone_opt(&self.metadata),
            created_at: self.created_at,
            expires_at: self.expires_at,
        }
    }
}

/// What is recorded when an entry is created, as plain values.
pub struct NewEntryView {
    pub task_id: u128,
    pub workspace_id: Option<u128>,
    pub session_id: Option<u128>,
    pub context_type: TaskBuildHistoryContextType,
    pub content: Seq<char>,
    pub metadata: Option<Seq<char>>,
}

/// What the caller supplies for a new entry. The store adds the
/// identifier and the two instants.
#[derive(Debug)]
pub struct CreateTaskBuildHistory {
    pub task_id: u128,
    pub workspace_id: Option<u128>,
    pub session_id: Option<u128>,
    pub context_type: TaskBuildHistoryContextType,
    pub content: String,
    pub metadata: Option<String>,
}

impl View for CreateTaskBuildHistory {
    type V = NewEntryView;

    open spec fn view(&self) -> NewEntryView {
        NewEntryView {
            task_id: self.task_id,
            workspace_id: self.workspace_id,
            session_id: self.session_id,
            context_type: self.context_type,
            content: self.content@,
            metadata: match self.metadata {
                Some(m) => Some(m@),
                None => None,
            },
        }
    }
}

impl Clone for CreateTaskBuildHistory {
    fn clone(&self) -> (r: Self)
        ensures
            r == *self,
    {
        CreateTaskBuildHistory {
            task_id: self.task_id,
            workspace_id: self.workspace_id,
            session_id: self.session_id,
            context_type: self.context_type,
            content: self.content.clone(),
            metadata: clone_opt(&self.metadata),
        }
    }
}

/// The views of a list of entries, in order.
pub open spec fn entry_views(entries: Seq<TaskBuildHistory>) -> Seq<HistoryEntryView> {
    entries.map_values(|e: TaskBuildHistory| e@)
}

} // verus!
