//! Flows: the fixed, ordered action list of each workflow intent, and the
//! runner that settles the status of every action.

pub mod laws;
pub mod manager;
pub mod model;
pub mod types;

pub use manager::FlowManager;
pub use types::{
    CodeFlowInput, ConfluenceFlowInput, FlowAction, FlowActionStatus, FlowActionView, FlowError,
    FlowIntent, FlowSummary, FlowSummaryView, JiraFlowInput,
};
