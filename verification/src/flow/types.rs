//! The records of a flow: intents, actions and their statuses, summaries,
//! errors, and what is asked of each kind of flow.

use vstd::prelude::*;
use crate::text::{clone_opt, concat, owned};

verus! {

/// The category of workflow that a flow is bound to.
#[derive(Debug, Clone, Copy, PartialEq, Eq, Structural)]
pub enum FlowIntent {
    Code,
    Jira,
    Confluence,
}

impl FlowIntent {
    /// The lower-case spelling under which the intent is shown and exchanged.
    pub open spec fn name(self) -> Seq<char> {
        match self {
            FlowIntent::Code => "code"@,
            FlowIntent::Jira => "jira"@,
            FlowIntent::Confluence => "confluence"@,
        }
    }

    /// The spelling of the intent.
    pub fn as_str(&self) -> (r: &'static str)
        ensures
            r@ == self.name(),
    {
        match self {
            FlowIntent::Code => "code",
            FlowIntent::Jira => "jira",
            FlowIntent::Confluence => "confluence",
        }
    }

    /// The spelling of the intent, as a string of its own.
    pub fn to_string(&self) -> (r: String)
        ensures
            r@ == self.name(),
    {
        owned(self.as_str())
    }
}

/// Lifecycle status of one action of a flow.
#[derive(Debug, Clone, Copy, PartialEq, Eq, Structural)]
pub enum FlowActionStatus {
    Pending,
    InProgress,
    Completed,
    Failed,
}

impl FlowActionStatus {
    /// The lower-case spelling under which the status is exchanged.
    pub open spec fn name(self) -> Seq<char> {
        match self {
            FlowActionStatus::Pending => "pending"@,
            FlowActionStatus::InProgress => "inprogress"@,
            FlowActionStatus::Completed => "completed"@,
            FlowActionStatus::Failed => "failed"@,
        }
    }

    /// A terminal status is never left again.
    pub open spec fn is_terminal(self) -> bool {
        self == FlowActionStatus::Completed || self == FlowActionStatus::Failed
    }

    /// The spelling of the status.
    pub fn as_str(&self) -> (r: &'static str)
        ensures
            r@ == self.name(),
    {
        match self {
            FlowActionStatus::Pending => "pending",
            FlowActionStatus::InProgress => "inprogress",
            FlowActionStatus::Completed => "completed",
            FlowActionStatus::Failed => "failed",
        }
    }

    /// Whether the status is terminal.
    pub fn terminal(&self) -> (r: bool)
        ensures
            r == self.is_terminal(),
    {
        match self {
            FlowActionStatus::Completed => true,
            FlowActionStatus::Failed => true,
            _ => false,
        }
    }
}

/// What an action is, as plain values.
pub struct FlowActionView {
    pub name: Seq<char>,
    pub description: Seq<char>,
    pub status: FlowActionStatus,
}

/// One step of a flow.
#[derive(Debug)]
pub struct FlowAction {
    pub name: String,
    pub description: String,
    pub status: FlowActionStatus,
}

impl View for FlowAction {
    type V = FlowActionView;

    open spec fn view(&self) -> FlowActionView {
        FlowActionView { name: self.name@, description: self.description@, status: self.status }
    }
}

impl Clone for FlowAction {
    fn clone(&self) -> (r: Self)
        ensures
            r == *self,
    {
        FlowAction {
            name: self.name.clone(),
            description: self.description.clone(),
            status: self.status,
        }
    }
}

/// The views of a list of actions, in order.
pub open spec fn action_views(actions: Seq<FlowAction>) -> Seq<FlowActionView> {
    actions.map_values(|a: FlowAction| a@)
}

/// A copy of a list of actions.
pub(crate) fn clone_actions(actions: &Vec<FlowAction>) -> (r: Vec<FlowAction>)
    ensures
        r@ == actions@,
{
    let mut copy: Vec<FlowAction> = Vec::new();
    let mut i: usize = 0;
    while i < actions.len()
        invariant
            i <= actions@.len(),
            copy@ == actions@.subrange(0, i as int),
        decreases actions@.len() - i,
    {
        copy.push(actions[i].clone());
        assert(copy@ =~= actions@.subrange(0, i + 1));
        i += 1;
    }
    assert(copy@ =~= actions@);
    copy
}

/// What a flow summary is, as plain values.
pub struct FlowSummaryView {
    pub intent: FlowIntent,
    pub description: Seq<char>,
    pub actions: Seq<FlowActionView>,
}

/// A flow: its intent, a description for people, and its actions in order.
#[derive(Debug)]
pub struct FlowSummary {
    pub intent: FlowIntent,
    pub description: String,
    pub actions: Vec<FlowAction>,
}

impl Clone for FlowSummary {
    fn clone(&self) -> (r: Self)
        ensures
            r.intent == self.intent,
            r.description == self.description,
            r.actions@ == self.actions@,
    {
        let actions = clone_actions(&self.actions);
        FlowSummary { intent: self.intent, description: self.description.clone(), actions }
    }
}

impl View for FlowSummary {
    type V = FlowSummaryView;

    open spec fn view(&self) -> FlowSummaryView {
        FlowSummaryView {
            intent: self.intent,
            description: self.description@,
            actions: action_views(self.actions@),
        }
    }
}

/// Why a flow could not be built or run.
#[derive(Debug)]
pub enum FlowError {
    /// The flow asked for does not belong to the manager's intent.
    InvalidIntent(String),
    /// An action failed while it was carried out.
    ExecutionFailed(String),
    /// The configuration of the flow is unusable.
    ConfigError(String),
}

impl FlowError {
    /// The detail that the error carries.
    pub open spec fn detail(self) -> Seq<char> {
        match self {
            FlowError::InvalidIntent(d) => d@,
            FlowError::ExecutionFailed(d) => d@,
            FlowError::ConfigError(d) => d@,
        }
    }

    /// The text that introduces the detail in the error's message.
    pub open spec fn prefix(self) -> Seq<char> {
        match self {
            FlowError::InvalidIntent(_) => "Invalid intent: "@,
            FlowError::ExecutionFailed(_) => "Flow execution failed: "@,
            FlowError::ConfigError(_) => "Configuration error: "@,
        }
    }

    /// The message shown for the error: its prefix, then its detail.
    pub fn message(&self) -> (r: String)
        ensures
            r@ == self.prefix() + self.detail(),
    {
        match self {
            FlowError::InvalidIntent(d) => concat("Invalid intent: ", d.as_str()),
            FlowError::ExecutionFailed(d) => concat("Flow execution failed: ", d.as_str()),
            FlowError::ConfigError(d) => concat("Configuration error: ", d.as_str()),
        }
    }
}

/// What is asked of a code flow.
#[derive(Debug)]
pub struct CodeFlowInput {
    pub title: String,
    pub description: String,
    pub repository_path: Option<String>,
}

impl Clone for CodeFlowInput {
    fn clone(&self) -> (r: Self)
        ensures
            r == *self,
    {
        Self {
            title: self.title.clone(),
            description: self.description.clone(),
            repository_path: clone_opt(&self.repository_path),
        }
    }
}

/// What is asked of a Jira flow.
#[derive(Debug)]
pub struct JiraFlowInput {
    pub title: String,
    pub description: String,
    pub project_key: Option<String>,
}

impl Clone for JiraFlowInput {
    fn clone(&self) -> (r: Self)
        ensures
            r == *self,
    {
        Self {
            title: self.title.clone(),
            description: self.description.clone(),
            project_key: clone_opt(&self.project_key),
        }
    }
}

/// What is asked of a Confluence flow.
#[derive(Debug)]
pub struct ConfluenceFlowInput {
    pub title: String,
    pub description: String,
    pub space_key: Option<String>,
}

impl Clone for ConfluenceFlowInput {
    fn clone(&self) -> (r: Self)
        ensures
            r == *self,
    {
        Self {
            title: self.title.clone(),
            description: self.description.clone(),
            space_key: clone_opt(&self.space_key),
        }
    }
}

} // verus!
