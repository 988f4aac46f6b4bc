//! Orchestration of agent work: flows of actions per intent, actions that
//! are handed to coding agents behind an approval gate, and the bounded,
//! expiring history of what happened for a task.

pub mod actions;
pub mod flow;
pub mod history;
pub mod jira;
pub mod json;
pub mod portfolio;
pub mod profile;
pub mod review_agent;
pub mod task_history;
pub mod text;
