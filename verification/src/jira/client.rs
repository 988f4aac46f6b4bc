//! The address and the credentials of a Jira site, and what a status of a
//! response means.

use vstd::prelude::*;
use crate::jira::error::JiraError;
use crate::text::{concat, owned, trim_trailing, without_trailing};

verus! {

/// What `base64`'s standard engine (standard alphabet, with padding)
/// encodes the UTF-8 bytes of a text to.
pub uninterp spec fn base64_standard(text: Seq<char>) -> Seq<char>;

/// Calls `base64::Engine::encode` of `base64::engine::general_purpose::STANDARD`
/// on the bytes of `text`. The encoding is not restated here: the result is
/// what the crate computes, under the name `base64_standard`. The call
/// stops only where the length of the result overflows `usize`, which no
/// string in memory is long enough for.
#[verifier::external_body]
fn encode_base64(text: &str) -> (r: String)
    ensures
        r@ == base64_standard(text@),
{
    base64::Engine::encode(&base64::engine::general_purpose::STANDARD, text)
}

/// What `reqwest::StatusCode` shows for the status with the given code: the
/// code, a blank, and the standard reason phrase of the code or a
/// placeholder where it has none.
pub uninterp spec fn status_text(code: u16) -> Seq<char>;

/// Calls `reqwest::StatusCode::from_u16` and hands back what the status
/// shows through `Display`, under the name `status_text`. A code from 100
/// to 999 is a status; no other code is, and those are left out.
#[verifier::external_body]
pub(crate) fn status_display(code: u16) -> (r: String)
    requires
        100 <= code <= 999,
    ensures
        r@ == status_text(code),
{
    match reqwest::StatusCode::from_u16(code) {
        Ok(status) => status.to_string(),
        Err(_) => String::new(),
    }
}

/// Whether a number is the code of an HTTP status.
pub open spec fn is_status(code: u16) -> bool {
    100 <= code <= 999
}

/// The address and the credentials of a Jira site.
#[derive(Debug)]
pub struct JiraClient {
    base_url: String,
    email: String,
    api_token: String,
}

impl Clone for JiraClient {
    fn clone(&self) -> (r: Self)
        ensures
            r == *self,
    {
        JiraClient {
            base_url: self.base_url.clone(),
            email: self.email.clone(),
            api_token: self.api_token.clone(),
        }
    }
}

/// What a client sends in the authorization header: the scheme, then the
/// encoded pair of email and token.
pub open spec fn auth_header(email: Seq<char>, api_token: Seq<char>) -> Seq<char> {
    "Basic "@ + base64_standard(email + ":"@ + api_token)
}

impl JiraClient {
    /// The address of the site, without a slash at its end.
    pub closed spec fn base_url(&self) -> Seq<char> {
        self.base_url@
    }

    /// The email of the account.
    pub closed spec fn email(&self) -> Seq<char> {
        self.email@
    }

    /// The API token of the account.
    pub closed spec fn api_token(&self) -> Seq<char> {
        self.api_token@
    }

    /// A client for the site at `base_url`, or `InvalidConfig` where the
    /// address, the email or the token is empty; the first of them that is
    /// empty is the one reported. Slashes at the end of the address are
    /// dropped.
    pub fn new(base_url: String, email: String, api_token: String) -> (r: Result<Self, JiraError>)
        ensures
            base_url@.len() == 0 ==> r is Err && r->Err_0 is InvalidConfig && r->Err_0.detail()
                == "Base URL cannot be empty"@,
            base_url@.len() > 0 && email@.len() == 0 ==> r is Err && r->Err_0 is InvalidConfig
                && r->Err_0.detail() == "Email cannot be empty"@,
            base_url@.len() > 0 && email@.len() > 0 && api_token@.len() == 0 ==> r is Err
                && r->Err_0 is InvalidConfig && r->Err_0.detail() == "API token cannot be empty"@,
            base_url@.len() > 0 && email@.len() > 0 && api_token@.len() > 0 ==> r is Ok && {
                &&& r->Ok_0.base_url() == without_trailing(base_url@, '/')
                &&& r->Ok_0.email() == email@
                &&& r->Ok_0.api_token() == api_token@
            },
    {
        if base_url.as_str().is_empty() {
            return Err(JiraError::InvalidConfig(owned("Base URL cannot be empty")));
        }
        if email.as_str().is_empty() {
            return Err(JiraError::InvalidConfig(owned("Email cannot be empty")));
        }
        if api_token.as_str().is_empty() {
            return Err(JiraError::InvalidConfig(owned("API token cannot be empty")));
        }
        let base_url = trim_trailing(base_url.as_str(), '/');
        Ok(JiraClient { base_url, email, api_token })
    }

    /// The address of the site, as the client keeps it.
    pub fn site(&self) -> (r: &str)
        ensures
            r@ == self.base_url(),
    {
        self.base_url.as_str()
    }

    /// The value of the authorization header.
    pub fn get_auth_header(&self) -> (r: String)
        ensures
            r@ == auth_header(self.email(), self.api_token()),
    {
        let mut credentials = concat(self.email.as_str(), ":");
        credentials.append(self.api_token.as_str());
        concat("Basic ", encode_base64(credentials.as_str()).as_str())
    }

    /// What a status means for a call: 200, 201 and 204 are a success; 401,
    /// 403 and 404 have an error of their own; every other status is a
    /// failed request, whose detail ends in what the status shows.
    pub fn handle_response_status(&self, status: u16) -> (r: Result<(), JiraError>)
        requires
            is_status(status),
        ensures
            r is Ok <==> status == 200 || status == 201 || status == 204,
            status == 401 ==> r is Err && r->Err_0 is AuthFailed && r->Err_0.detail()
                == "Invalid credentials or API token"@,
            status == 403 ==> r is Err && r->Err_0 is PermissionDenied && r->Err_0.detail()
                == "Insufficient permissions for this operation"@,
            status == 404 ==> r is Err && r->Err_0 is NotFound && r->Err_0.detail()
                == "Resource not found"@,
            !(status == 200 || status == 201 || status == 204 || status == 401 || status == 403
                || status == 404) ==> r is Err && r->Err_0 is RequestFailed && r->Err_0.detail()
                == "Request failed with status: "@ + status_text(status),
    {
        if status == 200 || status == 201 || status == 204 {
            Ok(())
        } else if status == 401 {
            Err(JiraError::AuthFailed(owned("Invalid credentials or API token")))
        } else if status == 403 {
            Err(JiraError::PermissionDenied(owned("Insufficient permissions for this operation")))
        } else if status == 404 {
            Err(JiraError::NotFound(owned("Resource not found")))
        } else {
            Err(
                JiraError::RequestFailed(
                    concat("Request failed with status: ", status_display(status).as_str()),
                ),
            )
        }
    }
}

} // verus!
