//! What holds of every flow and every run.

use vstd::prelude::*;
use crate::flow::model::{
    action_names, fresh_summary, outcome, ran, template, well_formed,
};
use crate::flow::types::{FlowActionStatus, FlowActionView, FlowIntent, FlowSummaryView};

verus! {

/// Every template holds exactly five actions, and none of them has been
/// started.
pub proof fn lemma_template_shape(intent: FlowIntent)
    ensures
        template(intent).len() == 5,
        forall|i: int|
            0 <= i < 5 ==> (#[trigger] template(intent)[i]).status == FlowActionStatus::Pending,
{
}

/// A fresh summary is well-formed for its intent, and a run leaves a
/// well-formed summary well-formed.
pub proof fn lemma_well_formed_summaries(
    intent: FlowIntent,
    runner: FlowIntent,
    title: Seq<char>,
    summary: FlowSummaryView,
)
    ensures
        well_formed(intent, fresh_summary(intent, title)),
        well_formed(intent, summary) ==> well_formed(intent, ran(runner, summary)),
{
    if well_formed(intent, summary) {
        assert(action_names(ran(runner, summary).actions) =~= action_names(summary.actions));
    }
}

/// The actions of a well-formed summary bear the names of the template,
/// one for one.
proof fn lemma_names_of_well_formed(intent: FlowIntent, summary: FlowSummaryView)
    requires
        well_formed(intent, summary),
    ensures
        summary.actions.len() == 5,
        forall|i: int|
            0 <= i < 5 ==> (#[trigger] summary.actions[i]).name == template(intent)[i].name,
{
    assert(action_names(summary.actions).len() == action_names(template(intent)).len());
    assert forall|i: int| 0 <= i < 5 implies (#[trigger] summary.actions[i]).name == template(
        intent,
    )[i].name by {
        assert(action_names(summary.actions)[i] == action_names(template(intent))[i]);
    }
}

/// Running a well-formed code summary under a manager bound to code
/// leaves all five actions completed.
pub proof fn lemma_code_flow_completes(summary: FlowSummaryView)
    requires
        well_formed(FlowIntent::Code, summary),
    ensures
        ran(FlowIntent::Code, summary).actions.len() == 5,
        forall|i: int|
            0 <= i < 5 ==> (#[trigger] ran(FlowIntent::Code, summary).actions[i]).status
                == FlowActionStatus::Completed,
{
    lemma_names_of_well_formed(FlowIntent::Code, summary);
    assert forall|i: int| 0 <= i < 5 implies (#[trigger] ran(
        FlowIntent::Code,
        summary,
    ).actions[i]).status == FlowActionStatus::Completed by {
        assert(summary.actions[i].name == template(FlowIntent::Code)[i].name);
    }
}

/// Running a well-formed Jira summary under a manager bound to Jira
/// completes the first three actions and leaves the review and the final
/// step pending.
pub proof fn lemma_jira_flow_waits_for_review(summary: FlowSummaryView)
    requires
        well_formed(FlowIntent::Jira, summary),
    ensures
        ran(FlowIntent::Jira, summary).actions.len() == 5,
        forall|i: int|
            0 <= i < 3 ==> (#[trigger] ran(FlowIntent::Jira, summary).actions[i]).status
                == FlowActionStatus::Completed,
        forall|i: int|
            3 <= i < 5 ==> (#[trigger] ran(FlowIntent::Jira, summary).actions[i]).status
                == FlowActionStatus::Pending,
{
    reveal_strlit("Read Title & Description");
    reveal_strlit("Analyze Requirements");
    reveal_strlit("Generate Task Proposal");
    reveal_strlit("Review Jira");
    reveal_strlit("Finalize");
    assert("Review Jira"@.len() == 11 && "Finalize"@.len() == 8);
    assert("Read Title & Description"@.len() == 24 && "Analyze Requirements"@.len() == 20);
    assert("Generate Task Proposal"@.len() == 22);
    lemma_names_of_well_formed(FlowIntent::Jira, summary);
    assert forall|i: int| 0 <= i < 5 implies (#[trigger] ran(
        FlowIntent::Jira,
        summary,
    ).actions[i]).status == (if i < 3 {
        FlowActionStatus::Completed
    } else {
        FlowActionStatus::Pending
    }) by {
        assert(summary.actions[i].name == template(FlowIntent::Jira)[i].name);
    }
}

/// Running a well-formed Confluence summary under a manager bound to
/// Confluence completes the first three actions and leaves the review and
/// the final step pending.
pub proof fn lemma_confluence_flow_waits_for_review(summary: FlowSummaryView)
    requires
        well_formed(FlowIntent::Confluence, summary),
    ensures
        ran(FlowIntent::Confluence, summary).actions.len() == 5,
        forall|i: int|
            0 <= i < 3 ==> (#[trigger] ran(FlowIntent::Confluence, summary).actions[i]).status
                == FlowActionStatus::Completed,
        forall|i: int|
            3 <= i < 5 ==> (#[trigger] ran(FlowIntent::Confluence, summary).actions[i]).status
                == FlowActionStatus::Pending,
{
    reveal_strlit("Read Title & Description");
    reveal_strlit("Analyze Documentation Needs");
    reveal_strlit("Generate Documentation");
    reveal_strlit("Review Confluence");
    reveal_strlit("Finalize");
    assert("Review Confluence"@.len() == 17 && "Finalize"@.len() == 8);
    assert("Read Title & Description"@.len() == 24);
    assert("Analyze Documentation Needs"@.len() == 27);
    assert("Generate Documentation"@.len() == 22);
    lemma_names_of_well_formed(FlowIntent::Confluence, summary);
    assert forall|i: int| 0 <= i < 5 implies (#[trigger] ran(
        FlowIntent::Confluence,
        summary,
    ).actions[i]).status == (if i < 3 {
        FlowActionStatus::Completed
    } else {
        FlowActionStatus::Pending
    }) by {
        assert(summary.actions[i].name == template(FlowIntent::Confluence)[i].name);
    }
}

/// Running a summary a second time under the same intent changes nothing:
/// the outcome of an action depends on its name alone, and names stay.
pub proof fn lemma_run_twice_is_run_once(intent: FlowIntent, summary: FlowSummaryView)
    ensures
        ran(intent, ran(intent, summary)) == ran(intent, summary),
{
    assert(ran(intent, ran(intent, summary)).actions =~= ran(intent, summary).actions);
}

/// The runner keeps the number of actions, their order, names and
/// descriptions; only statuses change.
pub proof fn lemma_run_keeps_actions(intent: FlowIntent, summary: FlowSummaryView)
    ensures
        ran(intent, summary).actions.len() == summary.actions.len(),
        forall|i: int|
            0 <= i < summary.actions.len() ==> {
                &&& (#[trigger] ran(intent, summary).actions[i]).name == summary.actions[i].name
                &&& ran(intent, summary).actions[i].description == summary.actions[i].description
            },
{
}

/// An action whose name the intent does not know ends as failed, and no
/// action is ever left in progress.
pub proof fn lemma_outcome_is_settled(intent: FlowIntent, name: Seq<char>)
    ensures
        outcome(intent, name) != FlowActionStatus::InProgress,
        !template(intent).map_values(|a: FlowActionView| a.name).contains(name) ==> outcome(
            intent,
            name,
        ) == FlowActionStatus::Failed,
{
    let names = template(intent).map_values(|a: FlowActionView| a.name);
    if outcome(intent, name) != FlowActionStatus::Failed {
        let i = choose|i: int| 0 <= i < 5 && template(intent)[i].name == name;
        assert(names[i] == name);
    }
}

/// No two actions of a template bear the same name.
pub proof fn lemma_template_names_are_distinct(intent: FlowIntent)
    ensures
        forall|i: int, j: int|
            0 <= i < j < 5 ==> (#[trigger] template(intent)[i]).name != (#[trigger] template(
                intent,
            )[j]).name,
{
    reveal_strlit("Check Existing Code");
    reveal_strlit("Create Issue");
    reveal_strlit("Implement Solution");
    reveal_strlit("Fix Issues");
    reveal_strlit("Override Files");
    reveal_strlit("Read Title & Description");
    reveal_strlit("Analyze Requirements");
    reveal_strlit("Generate Task Proposal");
    reveal_strlit("Review Jira");
    reveal_strlit("Analyze Documentation Needs");
    reveal_strlit("Generate Documentation");
    reveal_strlit("Review Confluence");
    reveal_strlit("Finalize");
    assert("Check Existing Code"@.len() == 19 && "Create Issue"@.len() == 12);
    assert("Implement Solution"@.len() == 18 && "Fix Issues"@.len() == 10);
    assert("Override Files"@.len() == 14);
    assert("Read Title & Description"@.len() == 24 && "Analyze Requirements"@.len() == 20);
    assert("Generate Task Proposal"@.len() == 22 && "Review Jira"@.len() == 11);
    assert("Analyze Documentation Needs"@.len() == 27 && "Generate Documentation"@.len() == 22);
    assert("Review Confluence"@.len() == 17 && "Finalize"@.len() == 8);
}

} // verus!
