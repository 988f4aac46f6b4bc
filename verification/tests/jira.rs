use orchestrator::jira::{
    create_issue_response, extract_text_from_adf, get_issue_response, get_transitions_response,
    parse_issue, parse_project, parse_projects, parse_transition, search_issues_response,
    test_connection_response, CreateJiraIssueRequest, HttpMethod, JiraClient, JiraError,
    TransitionJiraIssueRequest, UpdateJiraIssueRequest, DEFAULT_MAX_RESULTS,
};
use orchestrator::json::Json;

fn s(text: &str) -> Json {
    Json::text(text)
}

fn obj(members: Vec<(&str, Json)>) -> Json {
    Json::object(members.into_iter().map(|(k, v)| (k.to_string(), v)).collect())
}

fn arr(items: Vec<Json>) -> Json {
    Json::array(items)
}

fn client() -> JiraClient {
    JiraClient::new(
        "https://example.atlassian.net".to_string(),
        "user@example.com".to_string(),
        "test_token".to_string(),
    )
    .unwrap()
}

fn doc(text: &str) -> Json {
    obj(vec![
        ("type", s("doc")),
        ("version", Json::Integer(1)),
        (
            "content",
            arr(vec![obj(vec![
                ("type", s("paragraph")),
                ("content", arr(vec![obj(vec![("type", s("text")), ("text", s(text))])])),
            ])]),
        ),
    ])
}

fn same(a: &Json, b: &Json) -> bool {
    match (a, b) {
        (Json::Null, Json::Null) => true,
        (Json::Bool(x), Json::Bool(y)) => x == y,
        (Json::Integer(x), Json::Integer(y)) => x == y,
        (Json::String(x), Json::String(y)) => x == y,
        (Json::Array(x), Json::Array(y)) => {
            x.len() == y.len() && x.iter().zip(y.iter()).all(|(p, q)| same(p, q))
        }
        (Json::Object(x), Json::Object(y)) => {
            x.len() == y.len()
                && x.iter().zip(y.iter()).all(|((k, p), (l, q))| k == l && same(p, q))
        }
        _ => false,
    }
}

fn assert_same(a: &Json, b: &Json) {
    assert!(same(a, b), "{:?} is not {:?}", a, b);
}

#[test]
fn test_client_creation() {
    let client = JiraClient::new(
        "https://example.atlassian.net".to_string(),
        "user@example.com".to_string(),
        "test_token".to_string(),
    );
    assert!(client.is_ok());
}

#[test]
fn test_client_validation() {
    let result = JiraClient::new("".to_string(), "user@example.com".to_string(), "token".to_string());
    assert!(result.is_err());

    let result = JiraClient::new("https://example.atlassian.net".to_string(), "".to_string(), "token".to_string());
    assert!(result.is_err());

    let result = JiraClient::new("https://example.atlassian.net".to_string(), "user@example.com".to_string(), "".to_string());
    assert!(result.is_err());
}

#[test]
fn client_validation_reports_the_first_empty_field() {
    match JiraClient::new(String::new(), String::new(), String::new()) {
        Err(JiraError::InvalidConfig(d)) => assert_eq!(d, "Base URL cannot be empty"),
        other => panic!("unexpected {:?}", other),
    }
    match JiraClient::new("u".to_string(), String::new(), String::new()) {
        Err(JiraError::InvalidConfig(d)) => assert_eq!(d, "Email cannot be empty"),
        other => panic!("unexpected {:?}", other),
    }
    match JiraClient::new("u".to_string(), "e".to_string(), String::new()) {
        Err(e) => assert_eq!(e.message(), "Invalid configuration: API token cannot be empty"),
        other => panic!("unexpected {:?}", other),
    }
}

#[test]
fn trailing_slashes_of_the_base_url_are_dropped() {
    let c = JiraClient::new("https://x.net///".to_string(), "e".to_string(), "t".to_string()).unwrap();
    assert_eq!(c.site(), "https://x.net");
    let c = JiraClient::new("https://x.net/a/".to_string(), "e".to_string(), "t".to_string()).unwrap();
    assert_eq!(c.site(), "https://x.net/a");
    let c = JiraClient::new("https://x.net".to_string(), "e".to_string(), "t".to_string()).unwrap();
    assert_eq!(c.site(), "https://x.net");
    let c = JiraClient::new("///".to_string(), "e".to_string(), "t".to_string()).unwrap();
    assert_eq!(c.site(), "");
    let c = JiraClient::new("https://\u{fc}.net/".to_string(), "e".to_string(), "t".to_string()).unwrap();
    assert_eq!(c.site(), "https://\u{fc}.net");
    assert_eq!(c.clone().site(), "https://\u{fc}.net");
}

#[test]
fn auth_header_is_basic_with_the_encoded_credentials() {
    assert_eq!(client().get_auth_header(), "Basic dXNlckBleGFtcGxlLmNvbTp0ZXN0X3Rva2Vu");
    let c = JiraClient::new("u".to_string(), "a".to_string(), "b".to_string()).unwrap();
    assert_eq!(c.get_auth_header(), "Basic YTpi");
    let c = JiraClient::new("u".to_string(), "\u{fc}@x.io".to_string(), "t\u{f6}ken".to_string()).unwrap();
    assert_eq!(c.get_auth_header(), "Basic w7xAeC5pbzp0w7ZrZW4=");
}

#[test]
fn statuses_map_to_their_errors() {
    let c = client();
    assert!(c.handle_response_status(200).is_ok());
    assert!(c.handle_response_status(201).is_ok());
    assert!(c.handle_response_status(204).is_ok());
    match c.handle_response_status(401) {
        Err(JiraError::AuthFailed(d)) => assert_eq!(d, "Invalid credentials or API token"),
        other => panic!("unexpected {:?}", other),
    }
    match c.handle_response_status(403) {
        Err(JiraError::PermissionDenied(d)) => {
            assert_eq!(d, "Insufficient permissions for this operation")
        }
        other => panic!("unexpected {:?}", other),
    }
    match c.handle_response_status(404) {
        Err(JiraError::NotFound(d)) => assert_eq!(d, "Resource not found"),
        other => panic!("unexpected {:?}", other),
    }
    match c.handle_response_status(500) {
        Err(JiraError::RequestFailed(d)) => {
            assert_eq!(d, "Request failed with status: 500 Internal Server Error")
        }
        other => panic!("unexpected {:?}", other),
    }
    match c.handle_response_status(202) {
        Err(JiraError::RequestFailed(d)) => assert_eq!(d, "Request failed with status: 202 Accepted"),
        other => panic!("unexpected {:?}", other),
    }
    match c.handle_response_status(599) {
        Err(e) => assert_eq!(
            e.message(),
            "API request failed: Request failed with status: 599 <unknown status code>"
        ),
        other => panic!("unexpected {:?}", other),
    }
}

#[test]
fn connection_test_accepts_only_200() {
    assert!(test_connection_response(200).is_ok());
    match test_connection_response(401) {
        Err(JiraError::AuthFailed(d)) => assert_eq!(d, "Invalid credentials or API token"),
        other => panic!("unexpected {:?}", other),
    }
    match test_connection_response(403) {
        Err(JiraError::PermissionDenied(d)) => {
            assert_eq!(d, "Access forbidden with current credentials")
        }
        other => panic!("unexpected {:?}", other),
    }
    match test_connection_response(204) {
        Err(JiraError::RequestFailed(d)) => {
            assert_eq!(d, "Connection test failed with status: 204 No Content")
        }
        other => panic!("unexpected {:?}", other),
    }
    match test_connection_response(404) {
        Err(JiraError::RequestFailed(d)) => {
            assert_eq!(d, "Connection test failed with status: 404 Not Found")
        }
        other => panic!("unexpected {:?}", other),
    }
}

#[test]
fn error_messages_carry_their_prefix() {
    assert_eq!(JiraError::AuthFailed("x".to_string()).message(), "Authentication failed: x");
    assert_eq!(JiraError::InvalidConfig("x".to_string()).message(), "Invalid configuration: x");
    assert_eq!(JiraError::RequestFailed("x".to_string()).message(), "API request failed: x");
    assert_eq!(JiraError::NotFound("x".to_string()).message(), "Resource not found: x");
    assert_eq!(JiraError::PermissionDenied("x".to_string()).message(), "Permission denied: x");
    assert_eq!(JiraError::NetworkError("x".to_string()).message(), "Network error: x");
    assert_eq!(JiraError::JsonError("x".to_string()).message(), "JSON parsing error: x");
}

#[test]
fn requests_without_a_body() {
    let c = client();
    let auth = "Basic dXNlckBleGFtcGxlLmNvbTp0ZXN0X3Rva2Vu";
    let r = c.test_connection_request();
    assert_eq!(r.method, HttpMethod::Get);
    assert_eq!(r.url, "https://example.atlassian.net/rest/api/3/myself");
    assert_eq!(r.authorization, auth);
    assert!(r.body.is_none());
    let r = c.get_projects_request();
    assert_eq!(r.method, HttpMethod::Get);
    assert_eq!(r.url, "https://example.atlassian.net/rest/api/3/project");
    assert!(r.body.is_none());
    let r = c.get_project_request("PROJ");
    assert_eq!(r.method, HttpMethod::Get);
    assert_eq!(r.url, "https://example.atlassian.net/rest/api/3/project/PROJ");
    assert!(r.body.is_none());
    let r = c.get_issue_request("PROJ-1");
    assert_eq!(r.method, HttpMethod::Get);
    assert_eq!(r.url, "https://example.atlassian.net/rest/api/3/issue/PROJ-1");
    assert_eq!(r.authorization, auth);
    assert!(r.body.is_none());
    let r = c.get_transitions_request("PROJ-1");
    assert_eq!(r.method, HttpMethod::Get);
    assert_eq!(r.url, "https://example.atlassian.net/rest/api/3/issue/PROJ-1/transitions");
    assert!(r.body.is_none());
}

#[test]
fn search_requests() {
    let c = client();
    let fields = arr(vec![
        s("summary"),
        s("description"),
        s("status"),
        s("issuetype"),
        s("assignee"),
        s("reporter"),
        s("created"),
        s("updated"),
        s("priority"),
    ]);
    let r = c.search_issues_request("status = Done", Some(5));
    assert_eq!(r.method, HttpMethod::Post);
    assert_eq!(r.url, "https://example.atlassian.net/rest/api/3/search");
    assert_same(
        r.body.as_ref().unwrap(),
        &obj(vec![("jql", s("status = Done")), ("maxResults", Json::Integer(5)), ("fields", fields)]),
    );
    let r = c.get_issues_request("PROJ", None);
    assert_eq!(r.method, HttpMethod::Post);
    assert_eq!(r.url, "https://example.atlassian.net/rest/api/3/search");
    let body = r.body.unwrap();
    assert_eq!(body.str_at("jql"), Some("project = PROJ"));
    assert_eq!(DEFAULT_MAX_RESULTS, 50);
    assert!(matches!(body.member("maxResults"), Some(Json::Integer(50))));
    assert_eq!(body.array_at("fields").map(|f| f.len()), Some(9));
    let r = c.search_issues_request("x", Some(u32::MAX));
    assert!(matches!(r.body.unwrap().member("maxResults"), Some(Json::Integer(4294967295))));
}

#[test]
fn create_issue_requests() {
    let c = client();
    let request = CreateJiraIssueRequest {
        project_key: "PROJ".to_string(),
        summary: "Fix it".to_string(),
        description: None,
        issue_type: "Task".to_string(),
        priority: None,
        assignee_id: None,
    };
    let r = c.create_issue_request(&request);
    assert_eq!(r.method, HttpMethod::Post);
    assert_eq!(r.url, "https://example.atlassian.net/rest/api/3/issue");
    assert_same(
        r.body.as_ref().unwrap(),
        &obj(vec![(
            "fields",
            obj(vec![
                ("project", obj(vec![("key", s("PROJ"))])),
                ("summary", s("Fix it")),
                ("issuetype", obj(vec![("name", s("Task"))])),
            ]),
        )]),
    );
    let full = CreateJiraIssueRequest {
        description: Some("Broken".to_string()),
        priority: Some("High".to_string()),
        assignee_id: Some("abc".to_string()),
        ..request.clone()
    };
    let r = c.create_issue_request(&full);
    assert_same(
        r.body.as_ref().unwrap(),
        &obj(vec![(
            "fields",
            obj(vec![
                ("project", obj(vec![("key", s("PROJ"))])),
                ("summary", s("Fix it")),
                ("issuetype", obj(vec![("name", s("Task"))])),
                ("description", doc("Broken")),
                ("priority", obj(vec![("name", s("High"))])),
                ("assignee", obj(vec![("id", s("abc"))])),
            ]),
        )]),
    );
    let some = CreateJiraIssueRequest { priority: Some("Low".to_string()), ..request };
    let r = c.create_issue_request(&some);
    let body = r.body.unwrap();
    let fields = body.object_at("fields").unwrap();
    assert!(fields.member("description").is_none());
    assert!(fields.member("assignee").is_none());
    assert_eq!(fields.object_at("priority").unwrap().str_at("name"), Some("Low"));
}

#[test]
fn update_issue_requests() {
    let c = client();
    let nothing = UpdateJiraIssueRequest {
        summary: None,
        description: None,
        assignee_id: None,
        priority: None,
    };
    let r = c.update_issue_request("PROJ-2", &nothing);
    assert_eq!(r.method, HttpMethod::Put);
    assert_eq!(r.url, "https://example.atlassian.net/rest/api/3/issue/PROJ-2");
    assert_same(r.body.as_ref().unwrap(), &obj(vec![("fields", obj(vec![]))]));
    let all = UpdateJiraIssueRequest {
        summary: Some("S".to_string()),
        description: Some("D".to_string()),
        assignee_id: Some("A".to_string()),
        priority: Some("P".to_string()),
    };
    let r = c.update_issue_request("PROJ-2", &all.clone());
    assert_same(
        r.body.as_ref().unwrap(),
        &obj(vec![(
            "fields",
            obj(vec![
                ("summary", s("S")),
                ("description", doc("D")),
                ("assignee", obj(vec![("id", s("A"))])),
                ("priority", obj(vec![("name", s("P"))])),
            ]),
        )]),
    );
}

#[test]
fn transition_and_comment_requests() {
    let c = client();
    let t = TransitionJiraIssueRequest { transition_id: "31".to_string() };
    let r = c.transition_issue_request("PROJ-3", &t.clone().transition_id);
    assert_eq!(r.method, HttpMethod::Post);
    assert_eq!(r.url, "https://example.atlassian.net/rest/api/3/issue/PROJ-3/transitions");
    assert_same(
        r.body.as_ref().unwrap(),
        &obj(vec![("transition", obj(vec![("id", s("31"))]))]),
    );
    let r = c.add_comment_request("PROJ-3", "Looks good");
    assert_eq!(r.method, HttpMethod::Post);
    assert_eq!(r.url, "https://example.atlassian.net/rest/api/3/issue/PROJ-3/comment");
    assert_same(r.body.as_ref().unwrap(), &obj(vec![("body", doc("Looks good"))]));
}

fn user(id: &str, email: Option<&str>, name: &str) -> Json {
    let mut members = vec![("accountId", s(id)), ("displayName", s(name))];
    if let Some(e) = email {
        members.push(("emailAddress", s(e)));
    }
    obj(members)
}

fn issue_json() -> Json {
    obj(vec![
        ("id", s("10001")),
        ("key", s("PROJ-1")),
        (
            "fields",
            obj(vec![
                ("summary", s("Database migration")),
                ("description", doc("  Move the data  ")),
                ("status", obj(vec![("name", s("To Do"))])),
                ("issuetype", obj(vec![("name", s("Task"))])),
                ("assignee", user("u1", Some("a@x.io"), "Ann")),
                ("reporter", Json::Null),
                ("created", s("2024-01-01T00:00:00.000+0000")),
                ("updated", s("2024-01-02T00:00:00.000+0000")),
                ("priority", obj(vec![("name", s("High"))])),
            ]),
        ),
    ])
}

#[test]
fn an_issue_is_read_from_its_json() {
    let issue = parse_issue(&issue_json()).unwrap();
    assert_eq!(issue.id, "10001");
    assert_eq!(issue.key, "PROJ-1");
    assert_eq!(issue.summary, "Database migration");
    assert_eq!(issue.description.as_deref(), Some("Move the data"));
    assert_eq!(issue.status, "To Do");
    assert_eq!(issue.issue_type, "Task");
    let assignee = issue.assignee.clone().unwrap();
    assert_eq!(assignee.account_id, "u1");
    assert_eq!(assignee.email.as_deref(), Some("a@x.io"));
    assert_eq!(assignee.display_name, "Ann");
    assert!(issue.reporter.is_none());
    assert_eq!(issue.created, "2024-01-01T00:00:00.000+0000");
    assert_eq!(issue.updated, "2024-01-02T00:00:00.000+0000");
    assert_eq!(issue.priority.as_deref(), Some("High"));
    let copy = issue.clone();
    assert_eq!(copy.key, "PROJ-1");
}

#[test]
fn an_issue_without_what_it_needs_is_none() {
    assert!(parse_issue(&Json::Null).is_none());
    assert!(parse_issue(&obj(vec![("id", s("1")), ("key", s("K"))])).is_none());
    assert!(parse_issue(&obj(vec![("id", s("1")), ("key", s("K")), ("fields", s("x"))])).is_none());
    let without = |skip: &str| -> Json {
        let all = issue_json();
        match all {
            Json::Object(members) => Json::Object(
                members
                    .into_iter()
                    .map(|(k, v)| {
                        if k == "fields" {
                            match v {
                                Json::Object(f) => (
                                    k,
                                    Json::Object(f.into_iter().filter(|(n, _)| n != skip).collect()),
                                ),
                                other => (k, other),
                            }
                        } else {
                            (k, v)
                        }
                    })
                    .filter(|(k, _)| k != skip)
                    .collect(),
            ),
            other => other,
        }
    };
    for needed in ["id", "key", "fields", "summary", "status", "issuetype", "created", "updated"] {
        assert!(parse_issue(&without(needed)).is_none(), "{} is needed", needed);
    }
    for optional in ["description", "assignee", "reporter", "priority"] {
        let issue = parse_issue(&without(optional));
        assert!(issue.is_some(), "{} is optional", optional);
    }
    assert!(parse_issue(&without("priority")).unwrap().priority.is_none());
    assert!(parse_issue(&without("description")).unwrap().description.is_none());
    assert!(parse_issue(&without("assignee")).unwrap().assignee.is_none());
}

#[test]
fn a_user_without_names_has_empty_names() {
    let json = obj(vec![
        ("id", s("1")),
        ("key", s("K")),
        ("name", s("N")),
        ("lead", obj(vec![("emailAddress", Json::Integer(3))])),
    ]);
    let project = parse_project(&json);
    let lead = project.lead.clone().unwrap();
    assert_eq!(lead.account_id, "");
    assert_eq!(lead.display_name, "");
    assert!(lead.email.is_none());
    assert_eq!(project.clone().name, "N");
}

#[test]
fn projects_are_read_one_for_one() {
    let items = vec![
        obj(vec![
            ("id", s("1")),
            ("key", s("A")),
            ("name", s("Alpha")),
            ("description", s("first")),
            ("lead", user("u", None, "Lee")),
        ]),
        Json::Null,
        obj(vec![("key", s("C")), ("lead", s("nobody"))]),
    ];
    let projects = parse_projects(&items);
    assert_eq!(projects.len(), 3);
    assert_eq!(projects[0].id, "1");
    assert_eq!(projects[0].key, "A");
    assert_eq!(projects[0].name, "Alpha");
    assert_eq!(projects[0].description.as_deref(), Some("first"));
    assert_eq!(projects[0].lead.as_ref().unwrap().display_name, "Lee");
    assert!(projects[0].lead.as_ref().unwrap().email.is_none());
    assert_eq!(projects[1].id, "");
    assert_eq!(projects[1].key, "");
    assert_eq!(projects[1].name, "");
    assert!(projects[1].description.is_none());
    assert!(projects[1].lead.is_none());
    assert_eq!(projects[2].key, "C");
    assert!(projects[2].lead.is_none());
    assert!(parse_projects(&vec![]).is_empty());
}

#[test]
fn document_text_is_gathered_and_trimmed() {
    assert_eq!(extract_text_from_adf(&doc("hello")).as_deref(), Some("hello"));
    let two = obj(vec![(
        "content",
        arr(vec![
            obj(vec![(
                "content",
                arr(vec![
                    obj(vec![("text", s("one"))]),
                    obj(vec![("type", s("hardBreak"))]),
                    obj(vec![("text", s("two"))]),
                ]),
            )]),
            obj(vec![("type", s("rule"))]),
            obj(vec![("content", arr(vec![obj(vec![("text", s("three"))])]))]),
        ]),
    )]);
    assert_eq!(extract_text_from_adf(&two).as_deref(), Some("one two three"));
    assert_eq!(extract_text_from_adf(&doc("\t padded \n")).as_deref(), Some("padded"));
    // a text of blanks alone is not empty before it is trimmed
    assert_eq!(extract_text_from_adf(&doc(" ")).as_deref(), Some(""));
    // an empty text still brings its blank
    assert_eq!(extract_text_from_adf(&doc("")).as_deref(), Some(""));
    assert!(extract_text_from_adf(&obj(vec![("content", arr(vec![]))])).is_none());
    assert!(extract_text_from_adf(&obj(vec![("content", s("x"))])).is_none());
    assert!(extract_text_from_adf(&obj(vec![])).is_none());
    assert!(extract_text_from_adf(&Json::Null).is_none());
    assert!(extract_text_from_adf(&obj(vec![(
        "content",
        arr(vec![obj(vec![("content", arr(vec![obj(vec![("text", Json::Bool(true))])]))])])
    )]))
    .is_none());
}

#[test]
fn search_responses() {
    let body = obj(vec![(
        "issues",
        arr(vec![issue_json(), obj(vec![("id", s("2"))]), issue_json()]),
    )]);
    let issues = search_issues_response(&body).unwrap();
    assert_eq!(issues.len(), 2);
    assert_eq!(issues[0].key, "PROJ-1");
    assert_eq!(issues[1].key, "PROJ-1");
    assert!(search_issues_response(&obj(vec![("issues", arr(vec![]))])).unwrap().is_empty());
    match search_issues_response(&obj(vec![("issues", s("none"))])) {
        Err(JiraError::RequestFailed(d)) => assert_eq!(d, "Expected issues array in response"),
        other => panic!("unexpected {:?}", other),
    }
    match search_issues_response(&Json::Null) {
        Err(JiraError::RequestFailed(d)) => assert_eq!(d, "Expected issues array in response"),
        other => panic!("unexpected {:?}", other),
    }
}

#[test]
fn issue_and_creation_responses() {
    assert_eq!(get_issue_response(&issue_json()).unwrap().id, "10001");
    match get_issue_response(&obj(vec![])) {
        Err(JiraError::RequestFailed(d)) => assert_eq!(d, "Failed to parse issue response"),
        other => panic!("unexpected {:?}", other),
    }
    assert_eq!(create_issue_response(&obj(vec![("id", s("5")), ("key", s("PROJ-5"))])).unwrap(), "PROJ-5");
    match create_issue_response(&obj(vec![("id", s("5"))])) {
        Err(JiraError::RequestFailed(d)) => assert_eq!(d, "Missing issue key in response"),
        other => panic!("unexpected {:?}", other),
    }
    match create_issue_response(&obj(vec![("key", Json::Integer(5))])) {
        Err(JiraError::RequestFailed(d)) => assert_eq!(d, "Missing issue key in response"),
        other => panic!("unexpected {:?}", other),
    }
}

#[test]
fn transition_responses() {
    let good = obj(vec![
        ("id", s("31")),
        ("name", s("Done")),
        ("to", obj(vec![("id", s("3")), ("name", s("Closed"))])),
    ]);
    let t = parse_transition(&good).unwrap();
    assert_eq!(t.id, "31");
    assert_eq!(t.name, "Done");
    assert_eq!(t.to.id, "3");
    assert_eq!(t.to.name, "Closed");
    assert_eq!(t.clone().to.clone().name, "Closed");
    assert!(parse_transition(&obj(vec![("id", s("31")), ("name", s("Done"))])).is_none());
    assert!(parse_transition(&obj(vec![
        ("id", s("31")),
        ("name", s("Done")),
        ("to", obj(vec![("id", s("3"))]))
    ]))
    .is_none());
    assert!(parse_transition(&obj(vec![
        ("name", s("Done")),
        ("to", obj(vec![("id", s("3")), ("name", s("Closed"))]))
    ]))
    .is_none());
    let body = obj(vec![(
        "transitions",
        arr(vec![
            Json::Null,
            good,
            obj(vec![
                ("id", s("41")),
                ("name", s("Reopen")),
                ("to", obj(vec![("id", s("1")), ("name", s("Open"))])),
            ]),
        ]),
    )]);
    let ts = get_transitions_response(&body).unwrap();
    assert_eq!(ts.len(), 2);
    assert_eq!(ts[0].id, "31");
    assert_eq!(ts[1].to.name, "Open");
    match get_transitions_response(&obj(vec![])) {
        Err(JiraError::RequestFailed(d)) => assert_eq!(d, "Expected transitions array in response"),
        other => panic!("unexpected {:?}", other),
    }
}

#[test]
fn json_members_are_found_by_name() {
    let v = obj(vec![("a", s("1")), ("b", arr(vec![Json::Bool(true)])), ("a", s("2"))]);
    assert_eq!(v.str_at("a"), Some("1"));
    assert!(v.member("c").is_none());
    assert!(v.str_at("b").is_none());
    assert_eq!(v.array_at("b").unwrap().len(), 1);
    assert!(v.object_at("a").is_none());
    assert!(s("x").member("a").is_none());
    assert_eq!(s("x").as_str(), Some("x"));
    assert!(Json::Null.as_str().is_none());
    assert!(Json::Null.as_array().is_none());
    assert!(obj(vec![("o", obj(vec![]))]).object_at("o").is_some());
}
