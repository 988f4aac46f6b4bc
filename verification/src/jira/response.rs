//! What the body of a response holds.

use vstd::prelude::*;
use crate::jira::client::{is_status, status_display, status_text};
use crate::jira::error::JiraError;
use crate::jira::types::{
    issue_views, opt_user, project_views, transition_views, JiraIssue, JiraIssueView, JiraProject,
    JiraProjectView, JiraStatus, JiraStatusView, JiraTransition, JiraTransitionView, JiraUser,
    JiraUserView,
};
use crate::json::{json_views, Json, JsonView};
use crate::text::{concat, opt_text, owned, owned_opt};

verus! {

/// The characters of an optional text, or none where there is no text.
pub open spec fn or_empty(text: Option<Seq<char>>) -> Seq<char> {
    match text {
        Some(t) => t,
        None => Seq::empty(),
    }
}

/// The user that a JSON object describes. A name or an id that is missing
/// or no string is empty.
pub open spec fn user_of(json: JsonView) -> JiraUserView {
    JiraUserView {
        account_id: or_empty(json.text_at("accountId"@)),
        email: json.text_at("emailAddress"@),
        display_name: or_empty(json.text_at("displayName"@)),
    }
}

/// The user that the member `key` of `json` describes, where that member
/// is an object.
pub open spec fn user_at(json: JsonView, key: Seq<char>) -> Option<JiraUserView> {
    match json.object_at(key) {
        Some(u) => Some(user_of(u)),
        None => None,
    }
}

/// The project that a JSON value describes.
pub open spec fn project_of(json: JsonView) -> JiraProjectView {
    JiraProjectView {
        id: or_empty(json.text_at("id"@)),
        key: or_empty(json.text_at("key"@)),
        name: or_empty(json.text_at("name"@)),
        description: json.text_at("description"@),
        lead: user_at(json, "lead"@),
    }
}

/// The projects that a list of JSON values describes, one for one.
pub open spec fn projects_of(items: Seq<JsonView>) -> Seq<JiraProjectView> {
    Seq::new(items.len(), |i: int| project_of(items[i]))
}

/// The string at `inner` in the member `outer` of `json`.
pub open spec fn nested_text(json: JsonView, outer: Seq<char>, inner: Seq<char>) -> Option<
    Seq<char>,
> {
    match json.member(outer) {
        Some(v) => v.text_at(inner),
        None => None,
    }
}

/// What `str::trim` leaves of a text: the text without the white space at
/// its start and at its end.
pub uninterp spec fn trimmed(text: Seq<char>) -> Seq<char>;

/// Calls `str::trim` and hands back a copy of what it leaves, under the
/// name `trimmed`.
#[verifier::external_body]
fn trim(text: &str) -> (r: String)
    ensures
        r@ == trimmed(text@),
{
    text.trim().to_string()
}

/// The text of the leaves of one node of a document: the text of each leaf
/// that has one, each followed by a blank.
pub open spec fn leaves_text(leaves: Seq<JsonView>) -> Seq<char>
    decreases leaves.len(),
{
    if leaves.len() == 0 {
        Seq::empty()
    } else {
        leaves_text(leaves.drop_last()) + match leaves.last().text_at("text"@) {
            Some(t) => t + " "@,
            None => Seq::empty(),
        }
    }
}

/// The text of the nodes of a document: the text of the leaves of each
/// node that has a list of them.
pub open spec fn nodes_text(nodes: Seq<JsonView>) -> Seq<char>
    decreases nodes.len(),
{
    if nodes.len() == 0 {
        Seq::empty()
    } else {
        nodes_text(nodes.drop_last()) + match nodes.last().items_at("content"@) {
            Some(leaves) => leaves_text(leaves),
            None => Seq::empty(),
        }
    }
}

/// The plain text of a document in Atlassian's document format: the text
/// of its nodes, trimmed, or nothing where the document has no list of
/// nodes or no text.
pub open spec fn adf_text(adf: JsonView) -> Option<Seq<char>> {
    match adf.items_at("content"@) {
        Some(nodes) => if nodes_text(nodes).len() == 0 {
            None
        } else {
            Some(trimmed(nodes_text(nodes)))
        },
        None => None,
    }
}

/// The issue that a JSON value describes, where it has what an issue
/// needs: an object `fields`, and strings for id, key, summary, status
/// name, type name and the two dates.
pub open spec fn issue_of(json: JsonView) -> Option<JiraIssueView> {
    match json.object_at("fields"@) {
        None => None,
        Some(fields) => {
            if json.text_at("id"@) is Some && json.text_at("key"@) is Some && fields.text_at(
                "summary"@,
            ) is Some && nested_text(fields, "status"@, "name"@) is Some && nested_text(
                fields,
                "issuetype"@,
                "name"@,
            ) is Some && fields.text_at("created"@) is Some && fields.text_at("updated"@) is Some {
                Some(
                    JiraIssueView {
                        id: json.text_at("id"@)->0,
                        key: json.text_at("key"@)->0,
                        summary: fields.text_at("summary"@)->0,
                        description: match fields.object_at("description"@) {
                            Some(d) => adf_text(d),
                            None => None,
                        },
                        status: nested_text(fields, "status"@, "name"@)->0,
                        issue_type: nested_text(fields, "issuetype"@, "name"@)->0,
                        assignee: user_at(fields, "assignee"@),
                        reporter: user_at(fields, "reporter"@),
                        created: fields.text_at("created"@)->0,
                        updated: fields.text_at("updated"@)->0,
                        priority: nested_text(fields, "priority"@, "name"@),
                    },
                )
            } else {
                None
            }
        },
    }
}

/// The issues that a list of JSON values describes: those that describe
/// none are passed over.
pub open spec fn issues_of(items: Seq<JsonView>) -> Seq<JiraIssueView>
    decreases items.len(),
{
    if items.len() == 0 {
        Seq::empty()
    } else {
        match issue_of(items.last()) {
            Some(issue) => issues_of(items.drop_last()).push(issue),
            None => issues_of(items.drop_last()),
        }
    }
}

/// The transition that a JSON value describes, where it has what a
/// transition needs: strings for id and name, and an object `to` with
/// strings for id and name.
pub open spec fn transition_of(json: JsonView) -> Option<JiraTransitionView> {
    if json.text_at("id"@) is Some && json.text_at("name"@) is Some && json.object_at("to"@) is Some
        && json.object_at("to"@)->0.text_at("id"@) is Some && json.object_at("to"@)->0.text_at(
        "name"@,
    ) is Some {
        Some(
            JiraTransitionView {
                id: json.text_at("id"@)->0,
                name: json.text_at("name"@)->0,
                to: JiraStatusView {
                    id: json.object_at("to"@)->0.text_at("id"@)->0,
                    name: json.object_at("to"@)->0.text_at("name"@)->0,
                },
            },
        )
    } else {
        None
    }
}

/// The transitions that a list of JSON values describes: those that
/// describe none are passed over.
pub open spec fn transitions_of(items: Seq<JsonView>) -> Seq<JiraTransitionView>
    decreases items.len(),
{
    if items.len() == 0 {
        Seq::empty()
    } else {
        match transition_of(items.last()) {
            Some(t) => transitions_of(items.drop_last()).push(t),
            None => transitions_of(items.drop_last()),
        }
    }
}

/// The string at `key` in `json`, or an empty string.
fn text_or_empty(json: &Json, key: &str) -> (r: String)
    ensures
        r@ == or_empty(json@.text_at(key@)),
{
    match json.str_at(key) {
        Some(s) => owned(s),
        None => String::new(),
    }
}

/// The user that `json` describes.
fn parse_user(json: &Json) -> (r: JiraUser)
    ensures
        r@ == user_of(json@),
{
    JiraUser {
        account_id: text_or_empty(json, "accountId"),
        email: owned_opt(json.str_at("emailAddress")),
        display_name: text_or_empty(json, "displayName"),
    }
}

/// The user that the member `key` of `json` describes.
fn parse_user_at(json: &Json, key: &str) -> (r: Option<JiraUser>)
    ensures
        opt_user(r) == user_at(json@, key@),
{
    match json.object_at(key) {
        Some(u) => Some(parse_user(u)),
        None => None,
    }
}

/// The string at `inner` in the member `outer` of `json`.
fn nested_str<'a>(json: &'a Json, outer: &str, inner: &str) -> (r: Option<&'a str>)
    ensures
        r is Some <==> nested_text(json@, outer@, inner@) is Some,
        r matches Some(s) ==> Some(s@) == nested_text(json@, outer@, inner@),
{
    match json.member(outer) {
        Some(v) => v.str_at(inner),
        None => None,
    }
}

/// The project that `json` describes.
pub fn parse_project(json: &Json) -> (r: JiraProject)
    ensures
        r@ == project_of(json@),
{
    JiraProject {
        id: text_or_empty(json, "id"),
        key: text_or_empty(json, "key"),
        name: text_or_empty(json, "name"),
        description: owned_opt(json.str_at("description")),
        lead: parse_user_at(json, "lead"),
    }
}

/// The plain text of a document in Atlassian's document format.
pub fn extract_text_from_adf(adf: &Json) -> (r: Option<String>)
    ensures
        opt_text(r) == adf_text(adf@),
{
    let content = match adf.array_at("content") {
        Some(content) => content,
        None => { return None; },
    };
    let ghost nodes = json_views(content@);
    let mut text = String::new();
    let mut i: usize = 0;
    assert(nodes.subrange(0, 0) =~= Seq::<JsonView>::empty());
    while i < content.len()
        invariant
            i <= content@.len(),
            nodes == json_views(content@),
            text@ == nodes_text(nodes.subrange(0, i as int)),
        decreases content@.len() - i,
    {
        assert(nodes.subrange(0, i + 1).drop_last() =~= nodes.subrange(0, i as int));
        assert(nodes.subrange(0, i + 1).last() == content@[i as int]@);
        if let Some(node_content) = content[i].array_at("content") {
            let ghost leaves = json_views(node_content@);
            let ghost before = text@;
            let mut j: usize = 0;
            assert(leaves.subrange(0, 0) =~= Seq::<JsonView>::empty());
            while j < node_content.len()
                invariant
                    j <= node_content@.len(),
                    leaves == json_views(node_content@),
                    text@ == before + leaves_text(leaves.subrange(0, j as int)),
                decreases node_content@.len() - j,
            {
                assert(leaves.subrange(0, j + 1).drop_last() =~= leaves.subrange(0, j as int));
                assert(leaves.subrange(0, j + 1).last() == node_content@[j as int]@);
                if let Some(t) = node_content[j].str_at("text") {
                    text.append(t);
                    text.append(" ");
                    assert(text@ =~= before + leaves_text(leaves.subrange(0, j + 1)));
                }
                j += 1;
            }
            assert(leaves.subrange(0, j as int) =~= leaves);
        } else {
            assert(text@ =~= text@ + Seq::<char>::empty());
        }
        i += 1;
    }
    assert(nodes.subrange(0, i as int) =~= nodes);
    if text.as_str().is_empty() {
        None
    } else {
        Some(trim(text.as_str()))
    }
}

/// The issue that `json` describes, or `None` where it lacks what an
/// issue needs.
pub fn parse_issue(json: &Json) -> (r: Option<JiraIssue>)
    ensures
        r is Some <==> issue_of(json@) is Some,
        r matches Some(issue) ==> Some(issue@) == issue_of(json@),
{
    let fields = match json.object_at("fields") {
        Some(fields) => fields,
        None => { return None; },
    };
    let assignee = parse_user_at(fields, "assignee");
    let reporter = parse_user_at(fields, "reporter");
    let description = match fields.object_at("description") {
        Some(d) => extract_text_from_adf(d),
        None => None,
    };
    let id = match json.str_at("id") {
        Some(s) => owned(s),
        None => { return None; },
    };
    let key = match json.str_at("key") {
        Some(s) => owned(s),
        None => { return None; },
    };
    let summary = match fields.str_at("summary") {
        Some(s) => owned(s),
        None => { return None; },
    };
    let status = match nested_str(fields, "status", "name") {
        Some(s) => owned(s),
        None => { return None; },
    };
    let issue_type = match nested_str(fields, "issuetype", "name") {
        Some(s) => owned(s),
        None => { return None; },
    };
    let created = match fields.str_at("created") {
        Some(s) => owned(s),
        None => { return None; },
    };
    let updated = match fields.str_at("updated") {
        Some(s) => owned(s),
        None => { return None; },
    };
    let priority = owned_opt(nested_str(fields, "priority", "name"));
    Some(
        JiraIssue {
            id,
            key,
            summary,
            description,
            status,
            issue_type,
            assignee,
            reporter,
            created,
            updated,
            priority,
        },
    )
}

/// The transition that `json` describes, or `None` where it lacks what a
/// transition needs.
pub fn parse_transition(json: &Json) -> (r: Option<JiraTransition>)
    ensures
        r is Some <==> transition_of(json@) is Some,
        r matches Some(t) ==> Some(t@) == transition_of(json@),
{
    let id = match json.str_at("id") {
        Some(s) => owned(s),
        None => { return None; },
    };
    let name = match json.str_at("name") {
        Some(s) => owned(s),
        None => { return None; },
    };
    let to = match json.object_at("to") {
        Some(to) => to,
        None => { return None; },
    };
    let to_id = match to.str_at("id") {
        Some(s) => owned(s),
        None => { return None; },
    };
    let to_name = match to.str_at("name") {
        Some(s) => owned(s),
        None => { return None; },
    };
    Some(JiraTransition { id, name, to: JiraStatus { id: to_id, name: to_name } })
}

/// The projects that the items of a response describe, one for one.
pub fn parse_projects(items: &Vec<Json>) -> (r: Vec<JiraProject>)
    ensures
        project_views(r@) == projects_of(json_views(items@)),
{
    let mut projects: Vec<JiraProject> = Vec::new();
    let mut i: usize = 0;
    while i < items.len()
        invariant
            i <= items@.len(),
            projects@.len() == i,
            forall|j: int| 0 <= j < i ==> (#[trigger] projects@[j])@ == project_of(items@[j]@),
        decreases items@.len() - i,
    {
        projects.push(parse_project(&items[i]));
        i += 1;
    }
    assert(project_views(projects@) =~= projects_of(json_views(items@)));
    projects
}

/// The issues that the items of a response describe; items that describe
/// none are passed over.
pub fn parse_issues(items: &Vec<Json>) -> (r: Vec<JiraIssue>)
    ensures
        issue_views(r@) == issues_of(json_views(items@)),
{
    let ghost all = json_views(items@);
    let mut issues: Vec<JiraIssue> = Vec::new();
    let mut i: usize = 0;
    assert(all.subrange(0, 0) =~= Seq::<JsonView>::empty());
    assert(issue_views(issues@) =~= issues_of(all.subrange(0, 0)));
    while i < items.len()
        invariant
            i <= items@.len(),
            all == json_views(items@),
            issue_views(issues@) == issues_of(all.subrange(0, i as int)),
        decreases items@.len() - i,
    {
        assert(all.subrange(0, i + 1).drop_last() =~= all.subrange(0, i as int));
        assert(all.subrange(0, i + 1).last() == items@[i as int]@);
        if let Some(issue) = parse_issue(&items[i]) {
            let ghost before = issues@;
            issues.push(issue);
            assert(issue_views(issues@) =~= issue_views(before).push(issue@));
        }
        i += 1;
    }
    assert(all.subrange(0, i as int) =~= all);
    issues
}

/// The transitions that the items of a response describe; items that
/// describe none are passed over.
pub fn parse_transitions(items: &Vec<Json>) -> (r: Vec<JiraTransition>)
    ensures
        transition_views(r@) == transitions_of(json_views(items@)),
{
    let ghost all = json_views(items@);
    let mut transitions: Vec<JiraTransition> = Vec::new();
    let mut i: usize = 0;
    assert(all.subrange(0, 0) =~= Seq::<JsonView>::empty());
    assert(transition_views(transitions@) =~= transitions_of(all.subrange(0, 0)));
    while i < items.len()
        invariant
            i <= items@.len(),
            all == json_views(items@),
            transition_views(transitions@) == transitions_of(all.subrange(0, i as int)),
        decreases items@.len() - i,
    {
        assert(all.subrange(0, i + 1).drop_last() =~= all.subrange(0, i as int));
        assert(all.subrange(0, i + 1).last() == items@[i as int]@);
        if let Some(transition) = parse_transition(&items[i]) {
            let ghost before = transitions@;
            transitions.push(transition);
            assert(transition_views(transitions@) =~= transition_views(before).push(
                transition@,
            ));
        }
        i += 1;
    }
    assert(all.subrange(0, i as int) =~= all);
    transitions
}

/// What the test of a connection concludes from the status of the
/// response: 200 is a success, 401 and 403 have an error of their own, and
/// every other status is a failed request, whose detail ends in what the
/// status shows.
pub fn test_connection_response(status: u16) -> (r: Result<(), JiraError>)
    requires
        is_status(status),
    ensures
        r is Ok <==> status == 200,
        status == 401 ==> r is Err && r->Err_0 is AuthFailed && r->Err_0.detail()
            == "Invalid credentials or API token"@,
        status == 403 ==> r is Err && r->Err_0 is PermissionDenied && r->Err_0.detail()
            == "Access forbidden with current credentials"@,
        !(status == 200 || status == 401 || status == 403) ==> r is Err && r->Err_0 is RequestFailed
            && r->Err_0.detail() == "Connection test failed with status: "@ + status_text(status),
{
    if status == 200 {
        Ok(())
    } else if status == 401 {
        Err(JiraError::AuthFailed(owned("Invalid credentials or API token")))
    } else if status == 403 {
        Err(JiraError::PermissionDenied(owned("Access forbidden with current credentials")))
    } else {
        Err(
            JiraError::RequestFailed(
                concat("Connection test failed with status: ", status_display(status).as_str()),
            ),
        )
    }
}

/// The issues of the body of a search response, or `RequestFailed` where
/// the body has no list of issues.
pub fn search_issues_response(body: &Json) -> (r: Result<Vec<JiraIssue>, JiraError>)
    ensures
        body@.items_at("issues"@) is Some ==> r is Ok && issue_views(r->Ok_0@) == issues_of(
            body@.items_at("issues"@)->0,
        ),
        body@.items_at("issues"@) is None ==> r is Err && r->Err_0 is RequestFailed
            && r->Err_0.detail() == "Expected issues array in response"@,
{
    match body.array_at("issues") {
        Some(items) => Ok(parse_issues(items)),
        None => Err(JiraError::RequestFailed(owned("Expected issues array in response"))),
    }
}

/// The issue of the body of a response, or `RequestFailed` where the body
/// describes none.
pub fn get_issue_response(body: &Json) -> (r: Result<JiraIssue, JiraError>)
    ensures
        issue_of(body@) is Some ==> r is Ok && Some(r->Ok_0@) == issue_of(body@),
        issue_of(body@) is None ==> r is Err && r->Err_0 is RequestFailed && r->Err_0.detail()
            == "Failed to parse issue response"@,
{
    match parse_issue(body) {
        Some(issue) => Ok(issue),
        None => Err(JiraError::RequestFailed(owned("Failed to parse issue response"))),
    }
}

/// The key of the issue that was created, from the body of the response,
/// or `RequestFailed` where the body names none. The issue itself is then
/// fetched under that key.
pub fn create_issue_response(body: &Json) -> (r: Result<String, JiraError>)
    ensures
        body@.text_at("key"@) is Some ==> r is Ok && Some(r->Ok_0@) == body@.text_at("key"@),
        body@.text_at("key"@) is None ==> r is Err && r->Err_0 is RequestFailed
            && r->Err_0.detail() == "Missing issue key in response"@,
{
    match body.str_at("key") {
        Some(key) => Ok(owned(key)),
        None => Err(JiraError::RequestFailed(owned("Missing issue key in response"))),
    }
}

/// The transitions of the body of a response, or `RequestFailed` where the
/// body has no list of transitions.
pub fn get_transitions_response(body: &Json) -> (r: Result<Vec<JiraTransition>, JiraError>)
    ensures
        body@.items_at("transitions"@) is Some ==> r is Ok && transition_views(r->Ok_0@)
            == transitions_of(body@.items_at("transitions"@)->0),
        body@.items_at("transitions"@) is None ==> r is Err && r->Err_0 is RequestFailed
            && r->Err_0.detail() == "Expected transitions array in response"@,
{
    match body.array_at("transitions") {
        Some(items) => Ok(parse_transitions(items)),
        None => Err(JiraError::RequestFailed(owned("Expected transitions array in response"))),
    }
}

} // verus!
