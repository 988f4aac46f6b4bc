//! The Jira client's own logic: what a request looks like, what a status
//! means and what a response holds. Sending and receiving is left to the
//! caller.

pub mod client;
pub mod error;
pub mod request;
pub mod response;
pub mod types;

pub use client::JiraClient;
pub use error::JiraError;
pub use request::{HttpMethod, JiraRequest, JiraRequestView, DEFAULT_MAX_RESULTS};
pub use response::{
    create_issue_response, extract_text_from_adf, get_issue_response, get_transitions_response,
    parse_issue, parse_issues, parse_project, parse_projects, parse_transition, parse_transitions,
    search_issues_response, test_connection_response,
};
pub use types::{
    CreateJiraIssueRequest, JiraIssue, JiraIssueView, JiraProject, JiraProjectView, JiraStatus,
    JiraStatusView, JiraTransition, JiraTransitionView, JiraUser, JiraUserView,
    TransitionJiraIssueRequest, UpdateJiraIssueRequest,
};
