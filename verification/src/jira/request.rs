//! The requests that a client makes.

use vstd::prelude::*;
use crate::jira::client::{auth_header, JiraClient};
use crate::jira::types::{CreateJiraIssueRequest, UpdateJiraIssueRequest};
use crate::json::{member_views, Json, JsonView};
use crate::text::{concat, opt_text, owned};

verus! {

/// How a request is made.
#[derive(Debug, Clone, Copy, PartialEq, Eq, Structural)]
pub enum HttpMethod {
    Get,
    Post,
    Put,
}

/// What a request is, as plain values.
pub struct JiraRequestView {
    pub method: HttpMethod,
    pub url: Seq<char>,
    pub authorization: Seq<char>,
    pub body: Option<JsonView>,
}

/// A request to the Jira API, ready to be sent. Every request accepts
/// JSON, and one with a body sends JSON.
#[derive(Debug)]
pub struct JiraRequest {
    pub method: HttpMethod,
    pub url: String,
    /// The value of the authorization header.
    pub authorization: String,
    pub body: Option<Json>,
}

impl View for JiraRequest {
    type V = JiraRequestView;

    open spec fn view(&self) -> JiraRequestView {
        JiraRequestView {
            method: self.method,
            url: self.url@,
            authorization: self.authorization@,
            body: match self.body {
                Some(b) => Some(b@),
                None => None,
            },
        }
    }
}

/// The view of an optional body.
pub open spec fn opt_json(body: Option<Json>) -> Option<JsonView> {
    match body {
        Some(b) => Some(b@),
        None => None,
    }
}

/// The request that a client makes for `path` below its site.
pub open spec fn request_of(
    client: JiraClient,
    method: HttpMethod,
    path: Seq<char>,
    body: Option<JsonView>,
) -> JiraRequestView {
    JiraRequestView {
        method,
        url: client.base_url() + path,
        authorization: auth_header(client.email(), client.api_token()),
        body,
    }
}

/// An object with a single member.
pub open spec fn single(key: Seq<char>, value: JsonView) -> JsonView {
    JsonView::Object(seq![(key, value)])
}

/// A text as a document in Atlassian's document format: one paragraph
/// that holds the text.
pub open spec fn adf_doc(text: Seq<char>) -> JsonView {
    JsonView::Object(
        seq![
            ("type"@, JsonView::Text("doc"@)),
            ("version"@, JsonView::Integer(1)),
            (
                "content"@,
                JsonView::Array(
                    seq![
                        JsonView::Object(
                            seq![
                                ("type"@, JsonView::Text("paragraph"@)),
                                (
                                    "content"@,
                                    JsonView::Array(
                                        seq![
                                            JsonView::Object(
                                                seq![
                                                    ("type"@, JsonView::Text("text"@)),
                                                    ("text"@, JsonView::Text(text)),
                                                ],
                                            ),
                                        ],
                                    ),
                                ),
                            ],
                        ),
                    ],
                ),
            ),
        ],
    )
}

/// The fields that a search asks for.
pub open spec fn search_fields() -> JsonView {
    JsonView::Array(
        seq![
            JsonView::Text("summary"@),
            JsonView::Text("description"@),
            JsonView::Text("status"@),
            JsonView::Text("issuetype"@),
            JsonView::Text("assignee"@),
            JsonView::Text("reporter"@),
            JsonView::Text("created"@),
            JsonView::Text("updated"@),
            JsonView::Text("priority"@),
        ],
    )
}

/// How many issues a search asks for where the caller names no number.
pub const DEFAULT_MAX_RESULTS: u32 = 50;

/// The body of a search for `jql`.
pub open spec fn search_body(jql: Seq<char>, max_results: Option<u32>) -> JsonView {
    JsonView::Object(
        seq![
            ("jql"@, JsonView::Text(jql)),
            (
                "maxResults"@,
                JsonView::Integer(
                    match max_results {
                        Some(n) => n as int,
                        None => DEFAULT_MAX_RESULTS as int,
                    },
                ),
            ),
            ("fields"@, search_fields()),
        ],
    )
}

/// One member where `value` is given, none where it is not.
pub open spec fn optional_member(key: Seq<char>, value: Option<JsonView>) -> Seq<
    (Seq<char>, JsonView),
> {
    match value {
        Some(v) => seq![(key, v)],
        None => Seq::empty(),
    }
}

/// A text as a document, where there is a text.
pub open spec fn opt_doc(text: Option<Seq<char>>) -> Option<JsonView> {
    match text {
        Some(t) => Some(adf_doc(t)),
        None => None,
    }
}

/// An object with the single member `key` that holds a text, where there
/// is a text.
pub open spec fn opt_single(key: Seq<char>, text: Option<Seq<char>>) -> Option<JsonView> {
    match text {
        Some(t) => Some(single(key, JsonView::Text(t))),
        None => None,
    }
}

/// A text as a JSON string, where there is a text.
pub open spec fn opt_string(text: Option<Seq<char>>) -> Option<JsonView> {
    match text {
        Some(t) => Some(JsonView::Text(t)),
        None => None,
    }
}

/// The body that creates an issue: project, summary and type, then
/// description, priority and assignee where they are given.
pub open spec fn create_issue_body(request: CreateJiraIssueRequest) -> JsonView {
    single(
        "fields"@,
        JsonView::Object(
            seq![
                ("project"@, single("key"@, JsonView::Text(request.project_key@))),
                ("summary"@, JsonView::Text(request.summary@)),
                ("issuetype"@, single("name"@, JsonView::Text(request.issue_type@))),
            ] + optional_member("description"@, opt_doc(opt_text(request.description)))
                + optional_member("priority"@, opt_single("name"@, opt_text(request.priority)))
                + optional_member("assignee"@, opt_single("id"@, opt_text(request.assignee_id))),
        ),
    )
}

/// The body that updates an issue: summary, description, assignee and
/// priority, each where it is given.
pub open spec fn update_issue_body(request: UpdateJiraIssueRequest) -> JsonView {
    single(
        "fields"@,
        JsonView::Object(
            optional_member("summary"@, opt_string(opt_text(request.summary))) + optional_member(
                "description"@,
                opt_doc(opt_text(request.description)),
            ) + optional_member("assignee"@, opt_single("id"@, opt_text(request.assignee_id)))
                + optional_member("priority"@, opt_single("name"@, opt_text(request.priority))),
        ),
    )
}

/// A member of an object.
fn member(key: &str, value: Json) -> (r: (String, Json))
    ensures
        r.0@ == key@,
        r.1 == value,
{
    (owned(key), value)
}

/// An object with a single member.
fn single_object(key: &str, value: Json) -> (r: Json)
    ensures
        r@ == single(key@, value@),
{
    let mut members: Vec<(String, Json)> = Vec::new();
    members.push(member(key, value));
    let r = Json::object(members);
    assert(r@->Object_0 =~= seq![(key@, value@)]);
    r
}

/// A text as a document in Atlassian's document format.
fn adf_document(text: &str) -> (r: Json)
    ensures
        r@ == adf_doc(text@),
{
    let mut leaf: Vec<(String, Json)> = Vec::new();
    leaf.push(member("type", Json::text("text")));
    leaf.push(member("text", Json::text(text)));
    let leaf = Json::object(leaf);
    assert(leaf@->Object_0 =~= seq![
        ("type"@, JsonView::Text("text"@)),
        ("text"@, JsonView::Text(text@)),
    ]);
    let mut leaves: Vec<Json> = Vec::new();
    leaves.push(leaf);
    let leaves = Json::array(leaves);
    assert(leaves@->Array_0 =~= seq![leaf@]);
    let mut paragraph: Vec<(String, Json)> = Vec::new();
    paragraph.push(member("type", Json::text("paragraph")));
    paragraph.push(member("content", leaves));
    let paragraph = Json::object(paragraph);
    assert(paragraph@->Object_0 =~= seq![
        ("type"@, JsonView::Text("paragraph"@)),
        ("content"@, leaves@),
    ]);
    let mut nodes: Vec<Json> = Vec::new();
    nodes.push(paragraph);
    let nodes = Json::array(nodes);
    assert(nodes@->Array_0 =~= seq![paragraph@]);
    let mut doc: Vec<(String, Json)> = Vec::new();
    doc.push(member("type", Json::text("doc")));
    doc.push(member("version", Json::Integer(1)));
    doc.push(member("content", nodes));
    let doc = Json::object(doc);
    assert(doc@->Object_0 =~= seq![
        ("type"@, JsonView::Text("doc"@)),
        ("version"@, JsonView::Integer(1)),
        ("content"@, nodes@),
    ]);
    doc
}

/// Appends the member `key` to `members` where `value` is given.
fn push_optional(members: &mut Vec<(String, Json)>, key: &str, value: Option<Json>)
    ensures
        member_views(final(members)@) == member_views(old(members)@) + optional_member(
            key@,
            opt_json(value),
        ),
{
    match value {
        Some(v) => {
            members.push(member(key, v));
            assert(member_views(members@) =~= member_views(old(members)@) + seq![(key@, v@)]);
        },
        None => {
            assert(member_views(members@) =~= member_views(old(members)@) + Seq::<
                (Seq<char>, JsonView),
            >::empty());
        },
    }
}

/// A text as a document, where there is a text.
fn optional_document(text: &Option<String>) -> (r: Option<Json>)
    ensures
        opt_json(r) == opt_doc(opt_text(*text)),
{
    match text {
        Some(t) => Some(adf_document(t.as_str())),
        None => None,
    }
}

/// An object with the single member `key` that holds a text, where there
/// is a text.
fn optional_single(key: &str, text: &Option<String>) -> (r: Option<Json>)
    ensures
        opt_json(r) == opt_single(key@, opt_text(*text)),
{
    match text {
        Some(t) => Some(single_object(key, Json::text(t.as_str()))),
        None => None,
    }
}

/// A text as a JSON string, where there is a text.
fn optional_string(text: &Option<String>) -> (r: Option<Json>)
    ensures
        opt_json(r) == opt_string(opt_text(*text)),
{
    match text {
        Some(t) => Some(Json::text(t.as_str())),
        None => None,
    }
}

impl JiraClient {
    /// The request for `path` below the site.
    fn request(&self, method: HttpMethod, path: &str, body: Option<Json>) -> (r: JiraRequest)
        ensures
            r@ == request_of(*self, method, path@, opt_json(body)),
    {
        JiraRequest {
            method,
            url: concat(self.site(), path),
            authorization: self.get_auth_header(),
            body,
        }
    }

    /// The request that tests the connection and the credentials.
    pub fn test_connection_request(&self) -> (r: JiraRequest)
        ensures
            r@ == request_of(*self, HttpMethod::Get, "/rest/api/3/myself"@, None),
    {
        self.request(HttpMethod::Get, "/rest/api/3/myself", None)
    }

    /// The request for the projects that the account can see.
    pub fn get_projects_request(&self) -> (r: JiraRequest)
        ensures
            r@ == request_of(*self, HttpMethod::Get, "/rest/api/3/project"@, None),
    {
        self.request(HttpMethod::Get, "/rest/api/3/project", None)
    }

    /// The request for the project with the given key.
    pub fn get_project_request(&self, project_key: &str) -> (r: JiraRequest)
        ensures
            r@ == request_of(
                *self,
                HttpMethod::Get,
                "/rest/api/3/project/"@ + project_key@,
                None,
            ),
    {
        let path = concat("/rest/api/3/project/", project_key);
        self.request(HttpMethod::Get, path.as_str(), None)
    }

    /// The request for the issues of a project: a search for the project.
    pub fn get_issues_request(&self, project_key: &str, max_results: Option<u32>) -> (r:
        JiraRequest)
        ensures
            r@ == request_of(
                *self,
                HttpMethod::Post,
                "/rest/api/3/search"@,
                Some(search_body("project = "@ + project_key@, max_results)),
            ),
    {
        let jql = concat("project = ", project_key);
        self.search_issues_request(jql.as_str(), max_results)
    }

    /// The request that searches issues with a query in Jira's query
    /// language. Where no number of results is given, fifty are asked for.
    pub fn search_issues_request(&self, jql: &str, max_results: Option<u32>) -> (r: JiraRequest)
        ensures
            r@ == request_of(
                *self,
                HttpMethod::Post,
                "/rest/api/3/search"@,
                Some(search_body(jql@, max_results)),
            ),
    {
        let max: u32 = match max_results {
            Some(n) => n,
            None => DEFAULT_MAX_RESULTS,
        };
        let mut fields: Vec<Json> = Vec::new();
        fields.push(Json::text("summary"));
        fields.push(Json::text("description"));
        fields.push(Json::text("status"));
        fields.push(Json::text("issuetype"));
        fields.push(Json::text("assignee"));
        fields.push(Json::text("reporter"));
        fields.push(Json::text("created"));
        fields.push(Json::text("updated"));
        fields.push(Json::text("priority"));
        let fields = Json::array(fields);
        assert(fields@->Array_0 =~= search_fields()->Array_0);
        let mut members: Vec<(String, Json)> = Vec::new();
        members.push(member("jql", Json::text(jql)));
        members.push(member("maxResults", Json::Integer(max as i64)));
        members.push(member("fields", fields));
        let body = Json::object(members);
        assert(body@->Object_0 =~= search_body(jql@, max_results)->Object_0);
        self.request(HttpMethod::Post, "/rest/api/3/search", Some(body))
    }

    /// The request for the issue with the given key.
    pub fn get_issue_request(&self, issue_key: &str) -> (r: JiraRequest)
        ensures
            r@ == request_of(*self, HttpMethod::Get, "/rest/api/3/issue/"@ + issue_key@, None),
    {
        let path = concat("/rest/api/3/issue/", issue_key);
        self.request(HttpMethod::Get, path.as_str(), None)
    }

    /// The request that creates an issue.
    pub fn create_issue_request(&self, request: &CreateJiraIssueRequest) -> (r: JiraRequest)
        ensures
            r@ == request_of(
                *self,
                HttpMethod::Post,
                "/rest/api/3/issue"@,
                Some(create_issue_body(*request)),
            ),
    {
        let mut fields: Vec<(String, Json)> = Vec::new();
        fields.push(
            member("project", single_object("key", Json::text(request.project_key.as_str()))),
        );
        fields.push(member("summary", Json::text(request.summary.as_str())));
        fields.push(
            member("issuetype", single_object("name", Json::text(request.issue_type.as_str()))),
        );
        assert(member_views(fields@) =~= seq![
            ("project"@, single("key"@, JsonView::Text(request.project_key@))),
            ("summary"@, JsonView::Text(request.summary@)),
            ("issuetype"@, single("name"@, JsonView::Text(request.issue_type@))),
        ]);
        push_optional(&mut fields, "description", optional_document(&request.description));
        push_optional(&mut fields, "priority", optional_single("name", &request.priority));
        push_optional(&mut fields, "assignee", optional_single("id", &request.assignee_id));
        let body = single_object("fields", Json::object(fields));
        self.request(HttpMethod::Post, "/rest/api/3/issue", Some(body))
    }

    /// The request that updates the issue with the given key.
    pub fn update_issue_request(&self, issue_key: &str, request: &UpdateJiraIssueRequest) -> (r:
        JiraRequest)
        ensures
            r@ == request_of(
                *self,
                HttpMethod::Put,
                "/rest/api/3/issue/"@ + issue_key@,
                Some(update_issue_body(*request)),
            ),
    {
        let mut fields: Vec<(String, Json)> = Vec::new();
        assert(member_views(fields@) =~= Seq::<(Seq<char>, JsonView)>::empty());
        push_optional(&mut fields, "summary", optional_string(&request.summary));
        assert(member_views(fields@) =~= optional_member(
            "summary"@,
            opt_string(opt_text(request.summary)),
        ));
        push_optional(&mut fields, "description", optional_document(&request.description));
        push_optional(&mut fields, "assignee", optional_single("id", &request.assignee_id));
        push_optional(&mut fields, "priority", optional_single("name", &request.priority));
        let body = single_object("fields", Json::object(fields));
        let path = concat("/rest/api/3/issue/", issue_key);
        self.request(HttpMethod::Put, path.as_str(), Some(body))
    }

    /// The request for the transitions that an issue can make.
    pub fn get_transitions_request(&self, issue_key: &str) -> (r: JiraRequest)
        ensures
            r@ == request_of(
                *self,
                HttpMethod::Get,
                "/rest/api/3/issue/"@ + issue_key@ + "/transitions"@,
                None,
            ),
    {
        let mut path = concat("/rest/api/3/issue/", issue_key);
        path.append("/transitions");
        self.request(HttpMethod::Get, path.as_str(), None)
    }

    /// The request that lets an issue make a transition.
    pub fn transition_issue_request(&self, issue_key: &str, transition_id: &str) -> (r:
        JiraRequest)
        ensures
            r@ == request_of(
                *self,
                HttpMethod::Post,
                "/rest/api/3/issue/"@ + issue_key@ + "/transitions"@,
                Some(single("transition"@, single("id"@, JsonView::Text(transition_id@)))),
            ),
    {
        let body = single_object("transition", single_object("id", Json::text(transition_id)));
        let mut path = concat("/rest/api/3/issue/", issue_key);
        path.append("/transitions");
        self.request(HttpMethod::Post, path.as_str(), Some(body))
    }

    /// The request that adds a comment to an issue.
    pub fn add_comment_request(&self, issue_key: &str, comment: &str) -> (r: JiraRequest)
        ensures
            r@ == request_of(
                *self,
                HttpMethod::Post,
                "/rest/api/3/issue/"@ + issue_key@ + "/comment"@,
                Some(single("body"@, adf_doc(comment@))),
            ),
    {
        let body = single_object("body", adf_document(comment));
        let mut path = concat("/rest/api/3/issue/", issue_key);
        path.append("/comment");
        self.request(HttpMethod::Post, path.as_str(), Some(body))
    }
}

} // verus!
