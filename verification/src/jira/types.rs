//! The records of the Jira API: users, projects, issues, transitions, and
//! what is asked for when an issue is created or changed.

use vstd::prelude::*;
use crate::text::{clone_opt, opt_text};

verus! {

/// What a Jira user is, as plain values.
pub struct JiraUserView {
    pub account_id: Seq<char>,
    pub email: Option<Seq<char>>,
    pub display_name: Seq<char>,
}

/// A Jira user.
#[derive(Debug)]
pub struct JiraUser {
    pub account_id: String,
    pub email: Option<String>,
    pub display_name: String,
}

impl View for JiraUser {
    type V = JiraUserView;

    open spec fn view(&self) -> JiraUserView {
        JiraUserView {
            account_id: self.account_id@,
            email: opt_text(self.email),
            display_name: self.display_name@,
        }
    }
}

impl Clone for JiraUser {
    fn clone(&self) -> (r: Self)
        ensures
            r == *self,
    {
        JiraUser {
            account_id: self.account_id.clone(),
            email: clone_opt(&self.email),
            display_name: self.display_name.clone(),
        }
    }
}

/// The view of an optional user.
pub open spec fn opt_user(user: Option<JiraUser>) -> Option<JiraUserView> {
    match user {
        Some(u) => Some(u@),
        None => None,
    }
}

/// A copy of an optional user.
fn clone_opt_user(user: &Option<JiraUser>) -> (r: Option<JiraUser>)
    ensures
        r == *user,
{
    match user {
        Some(u) => Some(u.clone()),
        None => None,
    }
}

/// What a Jira project is, as plain values.
pub struct JiraProjectView {
    pub id: Seq<char>,
    pub key: Seq<char>,
    pub name: Seq<char>,
    pub description: Option<Seq<char>>,
    pub lead: Option<JiraUserView>,
}

/// A Jira project.
#[derive(Debug)]
pub struct JiraProject {
    pub id: String,
    pub key: String,
    pub name: String,
    pub description: Option<String>,
    pub lead: Option<JiraUser>,
}

impl View for JiraProject {
    type V = JiraProjectView;

    open spec fn view(&self) -> JiraProjectView {
        JiraProjectView {
            id: self.id@,
            key: self.key@,
            name: self.name@,
            description: opt_text(self.description),
            lead: opt_user(self.lead),
        }
    }
}

impl Clone for JiraProject {
    fn clone(&self) -> (r: Self)
        ensures
            r == *self,
    {
        JiraProject {
            id: self.id.clone(),
            key: self.key.clone(),
            name: self.name.clone(),
            description: clone_opt(&self.description),
            lead: clone_opt_user(&self.lead),
        }
    }
}

/// What a Jira issue is, as plain values.
pub struct JiraIssueView {
    pub id: Seq<char>,
    pub key: Seq<char>,
    pub summary: Seq<char>,
    pub description: Option<Seq<char>>,
    pub status: Seq<char>,
    pub issue_type: Seq<char>,
    pub assignee: Option<JiraUserView>,
    pub reporter: Option<JiraUserView>,
    pub created: Seq<char>,
    pub updated: Seq<char>,
    pub priority: Option<Seq<char>>,
}

/// A Jira issue.
#[derive(Debug)]
pub struct JiraIssue {
    pub id: String,
    pub key: String,
    pub summary: String,
    pub description: Option<String>,
    pub status: String,
    pub issue_type: String,
    pub assignee: Option<JiraUser>,
    pub reporter: Option<JiraUser>,
    pub created: String,
    pub updated: String,
    pub priority: Option<String>,
}

impl View for JiraIssue {
    type V = JiraIssueView;

    open spec fn view(&self) -> JiraIssueView {
        JiraIssueView {
            id: self.id@,
            key: self.key@,
            summary: self.summary@,
            description: opt_text(self.description),
            status: self.status@,
            issue_type: self.issue_type@,
            assignee: opt_user(self.assignee),
            reporter: opt_user(self.reporter),
            created: self.created@,
            updated: self.updated@,
            priority: opt_text(self.priority),
        }
    }
}

impl Clone for JiraIssue {
    fn clone(&self) -> (r: Self)
        ensures
            r == *self,
    {
        JiraIssue {
            id: self.id.clone(),
            key: self.key.clone(),
            summary: self.summary.clone(),
            description: clone_opt(&self.description),
            status: self.status.clone(),
            issue_type: self.issue_type.clone(),
            assignee: clone_opt_user(&self.assignee),
            reporter: clone_opt_user(&self.reporter),
            created: self.created.clone(),
            updated: self.updated.clone(),
            priority: clone_opt(&self.priority),
        }
    }
}

/// What is asked for when an issue is created.
#[derive(Debug)]
pub struct CreateJiraIssueRequest {
    pub project_key: String,
    pub summary: String,
    pub description: Option<String>,
    pub issue_type: String,
    pub priority: Option<String>,
    pub assignee_id: Option<String>,
}

impl Clone for CreateJiraIssueRequest {
    fn clone(&self) -> (r: Self)
        ensures
            r == *self,
    {
        CreateJiraIssueRequest {
            project_key: self.project_key.clone(),
            summary: self.summary.clone(),
            description: clone_opt(&self.description),
            issue_type: self.issue_type.clone(),
            priority: clone_opt(&self.priority),
            assignee_id: clone_opt(&self.assignee_id),
        }
    }
}

/// What is asked for when an issue is updated: only the fields that are
/// given are changed.
#[derive(Debug)]
pub struct UpdateJiraIssueRequest {
    pub summary: Option<String>,
    pub description: Option<String>,
    pub assignee_id: Option<String>,
    pub priority: Option<String>,
}

impl Clone for UpdateJiraIssueRequest {
    fn clone(&self) -> (r: Self)
        ensures
            r == *self,
    {
        UpdateJiraIssueRequest {
            summary: clone_opt(&self.summary),
            description: clone_opt(&self.description),
            assignee_id: clone_opt(&self.assignee_id),
            priority: clone_opt(&self.priority),
        }
    }
}

/// What is asked for when an issue changes its status.
#[derive(Debug)]
pub struct TransitionJiraIssueRequest {
    pub transition_id: String,
}

impl Clone for TransitionJiraIssueRequest {
    fn clone(&self) -> (r: Self)
        ensures
            r == *self,
    {
        TransitionJiraIssueRequest { transition_id: self.transition_id.clone() }
    }
}

/// What a Jira status is, as plain values.
pub struct JiraStatusView {
    pub id: Seq<char>,
    pub name: Seq<char>,
}

/// A status that an issue can have.
#[derive(Debug)]
pub struct JiraStatus {
    pub id: String,
    pub name: String,
}

impl View for JiraStatus {
    type V = JiraStatusView;

    open spec fn view(&self) -> JiraStatusView {
        JiraStatusView { id: self.id@, name: self.name@ }
    }
}

impl Clone for JiraStatus {
    fn clone(&self) -> (r: Self)
        ensures
            r == *self,
    {
        JiraStatus { id: self.id.clone(), name: self.name.clone() }
    }
}

/// What a Jira transition is, as plain values.
pub struct JiraTransitionView {
    pub id: Seq<char>,
    pub name: Seq<char>,
    pub to: JiraStatusView,
}

/// A change of status that an issue can make.
#[derive(Debug)]
pub struct JiraTransition {
    pub id: String,
    pub name: String,
    pub to: JiraStatus,
}

impl View for JiraTransition {
    type V = JiraTransitionView;

    open spec fn view(&self) -> JiraTransitionView {
        JiraTransitionView { id: self.id@, name: self.name@, to: self.to@ }
    }
}

impl Clone for JiraTransition {
    fn clone(&self) -> (r: Self)
        ensures
            r == *self,
    {
        JiraTransition { id: self.id.clone(), name: self.name.clone(), to: self.to.clone() }
    }
}

/// The views of a list of projects, in order.
pub open spec fn project_views(projects: Seq<JiraProject>) -> Seq<JiraProjectView> {
    projects.map_values(|p: JiraProject| p@)
}

/// The views of a list of issues, in order.
pub open spec fn issue_views(issues: Seq<JiraIssue>) -> Seq<JiraIssueView> {
    issues.map_values(|i: JiraIssue| i@)
}

/// The views of a list of transitions, in order.
pub open spec fn transition_views(transitions: Seq<JiraTransition>) -> Seq<JiraTransitionView> {
    transitions.map_values(|t: JiraTransition| t@)
}

} // verus!
