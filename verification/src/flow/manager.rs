//! The flow manager: it builds the flow of its intent and runs it.

use vstd::prelude::*;
use crate::flow::model::{
    code_outcome, code_template, confluence_outcome, confluence_template, fresh_summary,
    intent_title, jira_outcome, jira_template, mismatch_detail, pending, ran, settled,
};
use crate::flow::types::{
    action_views, clone_actions, CodeFlowInput, ConfluenceFlowInput, FlowAction, FlowActionStatus,
    FlowError, FlowIntent, FlowSummary, JiraFlowInput,
};
use crate::text::{concat, owned, str_eq};

verus! {

/// Builds and runs the flows of one intent.
#[derive(Debug)]
pub struct FlowManager {
    intent: FlowIntent,
}

impl Clone for FlowManager {
    fn clone(&self) -> (r: Self)
        ensures
            r == *self,
    {
        Self { intent: self.intent }
    }
}

impl FlowManager {
    /// The intent that the manager is bound to.
    pub closed spec fn bound(&self) -> FlowIntent {
        self.intent
    }

    /// A manager bound to `intent`.
    pub fn new(intent: FlowIntent) -> (r: Self)
        ensures
            r.bound() == intent,
    {
        Self { intent }
    }

    /// The intent that the manager is bound to.
    pub fn intent(&self) -> (r: FlowIntent)
        ensures
            r == self.bound(),
    {
        self.intent
    }

    /// A fresh code flow, or `InvalidIntent` where the manager is bound to
    /// another intent.
    pub fn create_code_flow(&self, input: &CodeFlowInput) -> (r: Result<FlowSummary, FlowError>)
        ensures
            self.bound() == FlowIntent::Code ==> r is Ok && r->Ok_0@ == fresh_summary(
                FlowIntent::Code,
                input.title@,
            ),
            self.bound() != FlowIntent::Code ==> r is Err && r->Err_0 is InvalidIntent
                && r->Err_0.detail() == mismatch_detail(FlowIntent::Code, self.bound()),
    {
        if self.intent != FlowIntent::Code {
            return Err(mismatch(FlowIntent::Code, self.intent));
        }
        let mut actions: Vec<FlowAction> = Vec::new();
        actions.push(
            new_action(
                "Check Existing Code",
                "Analyze current codebase and identify relevant files",
            ),
        );
        actions.push(new_action("Create Issue", "Create task tracking issue for changes"));
        actions.push(
            new_action("Implement Solution", "Generate code changes based on requirements"),
        );
        actions.push(new_action("Fix Issues", "Address any errors or test failures"));
        actions.push(new_action("Override Files", "Apply changes to repository files"));
        assert(action_views(actions@) =~= code_template());
        Ok(
            FlowSummary {
                intent: FlowIntent::Code,
                description: describe(FlowIntent::Code, input.title.as_str()),
                actions,
            },
        )
    }

    /// A fresh Jira flow, or `InvalidIntent` where the manager is bound to
    /// another intent.
    pub fn create_jira_flow(&self, input: &JiraFlowInput) -> (r: Result<FlowSummary, FlowError>)
        ensures
            self.bound() == FlowIntent::Jira ==> r is Ok && r->Ok_0@ == fresh_summary(
                FlowIntent::Jira,
                input.title@,
            ),
            self.bound() != FlowIntent::Jira ==> r is Err && r->Err_0 is InvalidIntent
                && r->Err_0.detail() == mismatch_detail(FlowIntent::Jira, self.bound()),
    {
        if self.intent != FlowIntent::Jira {
            return Err(mismatch(FlowIntent::Jira, self.intent));
        }
        let mut actions: Vec<FlowAction> = Vec::new();
        actions.push(
            new_action("Read Title & Description", "Parse and understand Jira requirements"),
        );
        actions.push(
            new_action(
                "Analyze Requirements",
                "Use agents to analyze best approach for solution",
            ),
        );
        actions.push(
            new_action(
                "Generate Task Proposal",
                "Create detailed task breakdown and implementation plan",
            ),
        );
        actions.push(
            new_action("Review Jira", "Present proposal for review (no code modifications)"),
        );
        actions.push(new_action("Finalize", "Confirm and save Jira task proposal"));
        assert(action_views(actions@) =~= jira_template());
        Ok(
            FlowSummary {
                intent: FlowIntent::Jira,
                description: describe(FlowIntent::Jira, input.title.as_str()),
                actions,
            },
        )
    }

    /// A fresh Confluence flow, or `InvalidIntent` where the manager is bound
    /// to another intent.
    pub fn create_confluence_flow(&self, input: &ConfluenceFlowInput) -> (r: Result<
        FlowSummary,
        FlowError,
    >)
        ensures
            self.bound() == FlowIntent::Confluence ==> r is Ok && r->Ok_0@ == fresh_summary(
                FlowIntent::Confluence,
                input.title@,
            ),
            self.bound() != FlowIntent::Confluence ==> r is Err && r->Err_0 is InvalidIntent
                && r->Err_0.detail() == mismatch_detail(FlowIntent::Confluence, self.bound()),
    {
        if self.intent != FlowIntent::Confluence {
            return Err(mismatch(FlowIntent::Confluence, self.intent));
        }
        let mut actions: Vec<FlowAction> = Vec::new();
        actions.push(
            new_action(
                "Read Title & Description",
                "Parse and understand documentation requirements",
            ),
        );
        actions.push(
            new_action(
                "Analyze Documentation Needs",
                "Use agents to determine best documentation structure",
            ),
        );
        actions.push(
            new_action("Generate Documentation", "Create comprehensive Confluence page content"),
        );
        actions.push(
            new_action(
                "Review Confluence",
                "Present documentation for review (no code modifications)",
            ),
        );
        actions.push(new_action("Finalize", "Confirm and save Confluence documentation"));
        assert(action_views(actions@) =~= confluence_template());
        Ok(
            FlowSummary {
                intent: FlowIntent::Confluence,
                description: describe(FlowIntent::Confluence, input.title.as_str()),
                actions,
            },
        )
    }

    /// Runs the actions of `summary` in order under the manager's intent.
    ///
    /// Every action is settled, whatever became of the ones before it, and
    /// the call itself never fails: an action whose name the intent does not
    /// know ends as `Failed`.
    pub fn execute_flow(&self, summary: &mut FlowSummary) -> (r: Result<Vec<FlowAction>, FlowError>)
        ensures
            r is Ok,
            final(summary)@ == ran(self.bound(), old(summary)@),
            action_views(r->Ok_0@) == final(summary)@.actions,
    {
        match self.intent {
            FlowIntent::Code => self.execute_code_flow(summary),
            FlowIntent::Jira => self.execute_jira_flow(summary),
            FlowIntent::Confluence => self.execute_confluence_flow(summary),
        }
    }

    fn execute_code_flow(&self, summary: &mut FlowSummary) -> (r: Result<
        Vec<FlowAction>,
        FlowError,
    >)
        ensures
            r is Ok,
            final(summary)@ == ran(FlowIntent::Code, old(summary)@),
            action_views(r->Ok_0@) == final(summary)@.actions,
    {
        Ok(settle_all(summary, FlowIntent::Code))
    }

    fn execute_jira_flow(&self, summary: &mut FlowSummary) -> (r: Result<
        Vec<FlowAction>,
        FlowError,
    >)
        ensures
            r is Ok,
            final(summary)@ == ran(FlowIntent::Jira, old(summary)@),
            action_views(r->Ok_0@) == final(summary)@.actions,
    {
        Ok(settle_all(summary, FlowIntent::Jira))
    }

    fn execute_confluence_flow(&self, summary: &mut FlowSummary) -> (r: Result<
        Vec<FlowAction>,
        FlowError,
    >)
        ensures
            r is Ok,
            final(summary)@ == ran(FlowIntent::Confluence, old(summary)@),
            action_views(r->Ok_0@) == final(summary)@.actions,
    {
        Ok(settle_all(summary, FlowIntent::Confluence))
    }
}

fn new_action(name: &str, description: &str) -> (r: FlowAction)
    ensures
        r@ == pending(name@, description@),
{
    FlowAction {
        name: owned(name),
        description: owned(description),
        status: FlowActionStatus::Pending,
    }
}

fn intent_title_str(intent: FlowIntent) -> (r: &'static str)
    ensures
        r@ == intent_title(intent),
{
    match intent {
        FlowIntent::Code => "Code",
        FlowIntent::Jira => "Jira",
        FlowIntent::Confluence => "Confluence",
    }
}

fn mismatch(wanted: FlowIntent, bound: FlowIntent) -> (r: FlowError)
    ensures
        r matches FlowError::InvalidIntent(d) && d@ == mismatch_detail(wanted, bound),
{
    let mut d = concat("Expected ", intent_title_str(wanted));
    d.append(" intent, got ");
    d.append(bound.as_str());
    FlowError::InvalidIntent(d)
}

fn describe(intent: FlowIntent, title: &str) -> (r: String)
    ensures
        r@ == intent_title(intent) + " flow: "@ + title@,
{
    let mut d = concat(intent_title_str(intent), " flow: ");
    d.append(title);
    d
}

fn code_status(name: &str) -> (r: FlowActionStatus)
    ensures
        r == code_outcome(name@),
{
    if str_eq(name, "Check Existing Code") {
        FlowActionStatus::Completed
    } else if str_eq(name, "Create Issue") {
        FlowActionStatus::Completed
    } else if str_eq(name, "Implement Solution") {
        FlowActionStatus::Completed
    } else if str_eq(name, "Fix Issues") {
        FlowActionStatus::Completed
    } else if str_eq(name, "Override Files") {
        FlowActionStatus::Completed
    } else {
        FlowActionStatus::Failed
    }
}

fn jira_status(name: &str) -> (r: FlowActionStatus)
    ensures
        r == jira_outcome(name@),
{
    if str_eq(name, "Read Title & Description") {
        FlowActionStatus::Completed
    } else if str_eq(name, "Analyze Requirements") {
        FlowActionStatus::Completed
    } else if str_eq(name, "Generate Task Proposal") {
        FlowActionStatus::Completed
    } else if str_eq(name, "Review Jira") {
        FlowActionStatus::Pending
    } else if str_eq(name, "Finalize") {
        FlowActionStatus::Pending
    } else {
        FlowActionStatus::Failed
    }
}

fn confluence_status(name: &str) -> (r: FlowActionStatus)
    ensures
        r == confluence_outcome(name@),
{
    if str_eq(name, "Read Title & Description") {
        FlowActionStatus::Completed
    } else if str_eq(name, "Analyze Documentation Needs") {
        FlowActionStatus::Completed
    } else if str_eq(name, "Generate Documentation") {
        FlowActionStatus::Completed
    } else if str_eq(name, "Review Confluence") {
        FlowActionStatus::Pending
    } else if str_eq(name, "Finalize") {
        FlowActionStatus::Pending
    } else {
        FlowActionStatus::Failed
    }
}

/// Goes through the actions of `summary` in order: each one is marked as in
/// progress and then left in the status that `intent` gives to its name.
fn settle_all(summary: &mut FlowSummary, intent: FlowIntent) -> (r: Vec<FlowAction>)
    ensures
        final(summary)@ == ran(intent, old(summary)@),
        action_views(r@) == final(summary)@.actions,
{
    let n = summary.actions.len();
    let mut i: usize = 0;
    while i < n
        invariant
            i <= n,
            n == summary.actions@.len(),
            n == old(summary).actions@.len(),
            summary.intent == old(summary).intent,
            summary.description == old(summary).description,
            forall|j: int|
                0 <= j < i ==> (#[trigger] summary.actions@[j])@ == settled(
                    intent,
                    old(summary).actions@[j]@,
                ),
            forall|j: int|
                i <= j < n ==> (#[trigger] summary.actions@[j]) == old(summary).actions@[j],
        decreases n - i,
    {
        summary.actions[i].status = FlowActionStatus::InProgress;
        let status = match intent {
            FlowIntent::Code => code_status(summary.actions[i].name.as_str()),
            FlowIntent::Jira => jira_status(summary.actions[i].name.as_str()),
            FlowIntent::Confluence => confluence_status(summary.actions[i].name.as_str()),
        };
        summary.actions[i].status = status;
        i += 1;
    }
    assert(summary@.actions =~= ran(intent, old(summary)@).actions);
    clone_actions(&summary.actions)
}

} // verus!
