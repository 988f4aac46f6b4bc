//! What the flows of each intent are and what a run makes of them, stated
//! over plain values.

use vstd::prelude::*;
use crate::flow::types::{FlowActionStatus, FlowActionView, FlowIntent, FlowSummaryView};

verus! {

/// An action that has not been started.
pub open spec fn pending(name: Seq<char>, description: Seq<char>) -> FlowActionView {
    FlowActionView { name, description, status: FlowActionStatus::Pending }
}

/// The actions of a code flow, in order.
pub open spec fn code_template() -> Seq<FlowActionView> {
    seq![
        pending("Check Existing Code"@, "Analyze current codebase and identify relevant files"@),
        pending("Create Issue"@, "Create task tracking issue for changes"@),
        pending("Implement Solution"@, "Generate code changes based on requirements"@),
        pending("Fix Issues"@, "Address any errors or test failures"@),
        pending("Override Files"@, "Apply changes to repository files"@),
    ]
}

/// The actions of a Jira flow, in order.
pub open spec fn jira_template() -> Seq<FlowActionView> {
    seq![
        pending("Read Title & Description"@, "Parse and understand Jira requirements"@),
        pending("Analyze Requirements"@, "Use agents to analyze best approach for solution"@),
        pending(
            "Generate Task Proposal"@,
            "Create detailed task breakdown and implementation plan"@,
        ),
        pending("Review Jira"@, "Present proposal for review (no code modifications)"@),
        pending("Finalize"@, "Confirm and save Jira task proposal"@),
    ]
}

/// The actions of a Confluence flow, in order.
pub open spec fn confluence_template() -> Seq<FlowActionView> {
    seq![
        pending("Read Title & Description"@, "Parse and understand documentation requirements"@),
        pending(
            "Analyze Documentation Needs"@,
            "Use agents to determine best documentation structure"@,
        ),
        pending("Generate Documentation"@, "Create comprehensive Confluence page content"@),
        pending(
            "Review Confluence"@,
            "Present documentation for review (no code modifications)"@,
        ),
        pending("Finalize"@, "Confirm and save Confluence documentation"@),
    ]
}

/// The actions that a flow of the given intent starts with.
pub open spec fn template(intent: FlowIntent) -> Seq<FlowActionView> {
    match intent {
        FlowIntent::Code => code_template(),
        FlowIntent::Jira => jira_template(),
        FlowIntent::Confluence => confluence_template(),
    }
}

/// The name of an intent as it is written in a flow's description and in
/// the message of a mismatch.
pub open spec fn intent_title(intent: FlowIntent) -> Seq<char> {
    match intent {
        FlowIntent::Code => "Code"@,
        FlowIntent::Jira => "Jira"@,
        FlowIntent::Confluence => "Confluence"@,
    }
}

/// The detail of the error raised when a manager bound to `bound` is asked
/// for a flow of intent `wanted`.
pub open spec fn mismatch_detail(wanted: FlowIntent, bound: FlowIntent) -> Seq<char> {
    "Expected "@ + intent_title(wanted) + " intent, got "@ + bound.name()
}

/// The summary of a fresh flow of the given intent and title.
pub open spec fn fresh_summary(intent: FlowIntent, title: Seq<char>) -> FlowSummaryView {
    FlowSummaryView {
        intent,
        description: intent_title(intent) + " flow: "@ + title,
        actions: template(intent),
    }
}

/// What becomes of an action of the given name in a code flow.
pub open spec fn code_outcome(name: Seq<char>) -> FlowActionStatus {
    if name == "Check Existing Code"@ || name == "Create Issue"@ || name == "Implement Solution"@
        || name == "Fix Issues"@ || name == "Override Files"@ {
        FlowActionStatus::Completed
    } else {
        FlowActionStatus::Failed
    }
}

/// What becomes of an action of the given name in a Jira flow.
pub open spec fn jira_outcome(name: Seq<char>) -> FlowActionStatus {
    if name == "Read Title & Description"@ || name == "Analyze Requirements"@ || name
        == "Generate Task Proposal"@ {
        FlowActionStatus::Completed
    } else if name == "Review Jira"@ || name == "Finalize"@ {
        FlowActionStatus::Pending
    } else {
        FlowActionStatus::Failed
    }
}

/// What becomes of an action of the given name in a Confluence flow.
pub open spec fn confluence_outcome(name: Seq<char>) -> FlowActionStatus {
    if name == "Read Title & Description"@ || name == "Analyze Documentation Needs"@ || name
        == "Generate Documentation"@ {
        FlowActionStatus::Completed
    } else if name == "Review Confluence"@ || name == "Finalize"@ {
        FlowActionStatus::Pending
    } else {
        FlowActionStatus::Failed
    }
}

/// The status in which the runner of `intent` leaves an action of the
/// given name. It depends on the name alone.
pub open spec fn outcome(intent: FlowIntent, name: Seq<char>) -> FlowActionStatus {
    match intent {
        FlowIntent::Code => code_outcome(name),
        FlowIntent::Jira => jira_outcome(name),
        FlowIntent::Confluence => confluence_outcome(name),
    }
}

/// An action after the runner of `intent` has settled it: name and
/// description stay, the status is the outcome of the name.
pub open spec fn settled(intent: FlowIntent, action: FlowActionView) -> FlowActionView {
    FlowActionView {
        name: action.name,
        description: action.description,
        status: outcome(intent, action.name),
    }
}

/// A summary after the runner of `intent` has gone through all its actions.
pub open spec fn ran(intent: FlowIntent, summary: FlowSummaryView) -> FlowSummaryView {
    FlowSummaryView {
        intent: summary.intent,
        description: summary.description,
        actions: summary.actions.map_values(|a: FlowActionView| settled(intent, a)),
    }
}

/// The names of a list of actions, in order.
pub open spec fn action_names(actions: Seq<FlowActionView>) -> Seq<Seq<char>> {
    actions.map_values(|a: FlowActionView| a.name)
}

/// A summary is well-formed for an intent where it carries that intent and
/// its actions bear the names of the intent's template, in order.
pub open spec fn well_formed(intent: FlowIntent, summary: FlowSummaryView) -> bool {
    summary.intent == intent && action_names(summary.actions) == action_names(template(intent))
}

} // verus!
