//! Why a call of the Jira API fails.

use vstd::prelude::*;
use crate::text::concat;

verus! {

/// Why a call of the Jira API failed.
#[derive(Debug)]
pub enum JiraError {
    AuthFailed(String),
    InvalidConfig(String),
    RequestFailed(String),
    NotFound(String),
    PermissionDenied(String),
    /// The request could not be sent or the response could not be read.
    NetworkError(String),
    /// A body was no JSON of the expected form.
    JsonError(String),
}

impl JiraError {
    /// The detail that the error carries.
    pub open spec fn detail(self) -> Seq<char> {
        match self {
            JiraError::AuthFailed(d) => d@,
            JiraError::InvalidConfig(d) => d@,
            JiraError::RequestFailed(d) => d@,
            JiraError::NotFound(d) => d@,
            JiraError::PermissionDenied(d) => d@,
            JiraError::NetworkError(d) => d@,
            JiraError::JsonError(d) => d@,
        }
    }

    /// The text that introduces the detail in the error's message.
    pub open spec fn prefix(self) -> Seq<char> {
        match self {
            JiraError::AuthFailed(_) => "Authentication failed: "@,
            JiraError::InvalidConfig(_) => "Invalid configuration: "@,
            JiraError::RequestFailed(_) => "API request failed: "@,
            JiraError::NotFound(_) => "Resource not found: "@,
            JiraError::PermissionDenied(_) => "Permission denied: "@,
            JiraError::NetworkError(_) => "Network error: "@,
            JiraError::JsonError(_) => "JSON parsing error: "@,
        }
    }

    /// The message shown for the error: its prefix, then its detail.
    pub fn message(&self) -> (r: String)
        ensures
            r@ == self.prefix() + self.detail(),
    {
        match self {
            JiraError::AuthFailed(d) => concat("Authentication failed: ", d.as_str()),
            JiraError::InvalidConfig(d) => concat("Invalid configuration: ", d.as_str()),
            JiraError::RequestFailed(d) => concat("API request failed: ", d.as_str()),
            JiraError::NotFound(d) => concat("Resource not found: ", d.as_str()),
            JiraError::PermissionDenied(d) => concat("Permission denied: ", d.as_str()),
            JiraError::NetworkError(d) => concat("Network error: ", d.as_str()),
            JiraError::JsonError(d) => concat("JSON parsing error: ", d.as_str()),
        }
    }
}

} // verus!
