use orchestrator::flow::{
    CodeFlowInput, ConfluenceFlowInput, FlowActionStatus, FlowError, FlowIntent, FlowManager,
    JiraFlowInput,
};

#[test]
fn test_code_flow_creation() {
    let manager = FlowManager::new(FlowIntent::Code);
    let input = CodeFlowInput {
        title: "Add login feature".to_string(),
        description: "Implement user authentication".to_string(),
        repository_path: Some("/path/to/repo".to_string()),
    };

    let summary = manager.create_code_flow(&input).unwrap();
    assert_eq!(summary.intent, FlowIntent::Code);
    assert_eq!(summary.actions.len(), 5);
    assert_eq!(summary.actions[0].name, "Check Existing Code");
    assert_eq!(summary.actions[4].name, "Override Files");
}

#[test]
fn test_jira_flow_creation() {
    let manager = FlowManager::new(FlowIntent::Jira);
    let input = JiraFlowInput {
        title: "PROJ-123: Database migration".to_string(),
        description: "Migrate from MySQL to PostgreSQL".to_string(),
        project_key: Some("PROJ".to_string()),
    };

    let summary = manager.create_jira_flow(&input).unwrap();
    assert_eq!(summary.intent, FlowIntent::Jira);
    assert_eq!(summary.actions.len(), 5);
    assert_eq!(summary.actions[3].name, "Review Jira");
    assert_eq!(summary.actions[4].name, "Finalize");
}

#[test]
fn test_confluence_flow_creation() {
    let manager = FlowManager::new(FlowIntent::Confluence);
    let input = ConfluenceFlowInput {
        title: "API Documentation".to_string(),
        description: "Document REST API endpoints".to_string(),
        space_key: Some("DEV".to_string()),
    };

    let summary = manager.create_confluence_flow(&input).unwrap();
    assert_eq!(summary.intent, FlowIntent::Confluence);
    assert_eq!(summary.actions.len(), 5);
    assert_eq!(summary.actions[3].name, "Review Confluence");
    assert_eq!(summary.actions[4].name, "Finalize");
}

#[test]
fn test_invalid_intent_for_code() {
    let manager = FlowManager::new(FlowIntent::Jira);
    let input = CodeFlowInput {
        title: "Test".to_string(),
        description: "Test".to_string(),
        repository_path: None,
    };

    let result = manager.create_code_flow(&input);
    assert!(result.is_err());
}

#[test]
fn test_flow_execution() {
    let manager = FlowManager::new(FlowIntent::Code);
    let input = CodeFlowInput {
        title: "Test".to_string(),
        description: "Test".to_string(),
        repository_path: None,
    };

    let mut summary = manager.create_code_flow(&input).unwrap();
    let actions = manager.execute_flow(&mut summary).unwrap();

    assert_eq!(actions.len(), 5);
    assert!(actions.iter().all(|a| a.status == FlowActionStatus::Completed));
}

#[test]
fn invalid_intent_message_names_both_intents() {
    let manager = FlowManager::new(FlowIntent::Jira);
    let input = CodeFlowInput {
        title: "Test".to_string(),
        description: "Test".to_string(),
        repository_path: None,
    };
    match manager.create_code_flow(&input) {
        Err(FlowError::InvalidIntent(detail)) => {
            assert_eq!(detail, "Expected Code intent, got jira");
        }
        other => panic!("expected InvalidIntent, got {:?}", other),
    }
}

fn names(actions: &[orchestrator::flow::FlowAction]) -> Vec<String> {
    actions.iter().map(|a| a.name.clone()).collect()
}

fn statuses(actions: &[orchestrator::flow::FlowAction]) -> Vec<FlowActionStatus> {
    actions.iter().map(|a| a.status).collect()
}

fn code_input(title: &str) -> CodeFlowInput {
    CodeFlowInput { title: title.to_string(), description: String::new(), repository_path: None }
}

fn jira_input(title: &str) -> JiraFlowInput {
    JiraFlowInput { title: title.to_string(), description: String::new(), project_key: None }
}

fn confluence_input(title: &str) -> ConfluenceFlowInput {
    ConfluenceFlowInput { title: title.to_string(), description: String::new(), space_key: None }
}

#[test]
fn code_template_is_in_documented_order() {
    let summary = FlowManager::new(FlowIntent::Code).create_code_flow(&code_input("T")).unwrap();
    assert_eq!(
        names(&summary.actions),
        vec![
            "Check Existing Code",
            "Create Issue",
            "Implement Solution",
            "Fix Issues",
            "Override Files"
        ]
    );
    assert_eq!(summary.actions[0].description, "Analyze current codebase and identify relevant files");
    assert_eq!(summary.actions[1].description, "Create task tracking issue for changes");
    assert_eq!(summary.actions[2].description, "Generate code changes based on requirements");
    assert_eq!(summary.actions[3].description, "Address any errors or test failures");
    assert_eq!(summary.actions[4].description, "Apply changes to repository files");
    assert!(summary.actions.iter().all(|a| a.status == FlowActionStatus::Pending));
    assert_eq!(summary.description, "Code flow: T");
}

#[test]
fn jira_template_is_in_documented_order() {
    let summary = FlowManager::new(FlowIntent::Jira).create_jira_flow(&jira_input("T")).unwrap();
    assert_eq!(
        names(&summary.actions),
        vec![
            "Read Title & Description",
            "Analyze Requirements",
            "Generate Task Proposal",
            "Review Jira",
            "Finalize"
        ]
    );
    assert_eq!(summary.actions[0].description, "Parse and understand Jira requirements");
    assert_eq!(
        summary.actions[1].description,
        "Use agents to analyze best approach for solution"
    );
    assert_eq!(
        summary.actions[2].description,
        "Create detailed task breakdown and implementation plan"
    );
    assert_eq!(
        summary.actions[3].description,
        "Present proposal for review (no code modifications)"
    );
    assert_eq!(summary.actions[4].description, "Confirm and save Jira task proposal");
    assert!(summary.actions.iter().all(|a| a.status == FlowActionStatus::Pending));
    assert_eq!(summary.description, "Jira flow: T");
}

#[test]
fn confluence_template_is_in_documented_order() {
    let summary = FlowManager::new(FlowIntent::Confluence)
        .create_confluence_flow(&confluence_input("T"))
        .unwrap();
    assert_eq!(
        names(&summary.actions),
        vec![
            "Read Title & Description",
            "Analyze Documentation Needs",
            "Generate Documentation",
            "Review Confluence",
            "Finalize"
        ]
    );
    assert_eq!(
        summary.actions[0].description,
        "Parse and understand documentation requirements"
    );
    assert_eq!(
        summary.actions[1].description,
        "Use agents to determine best documentation structure"
    );
    assert_eq!(summary.actions[2].description, "Create comprehensive Confluence page content");
    assert_eq!(
        summary.actions[3].description,
        "Present documentation for review (no code modifications)"
    );
    assert_eq!(summary.actions[4].description, "Confirm and save Confluence documentation");
    assert_eq!(summary.description, "Confluence flow: T");
}

#[test]
fn every_mismatched_creation_is_an_invalid_intent() {
    let intents = [FlowIntent::Code, FlowIntent::Jira, FlowIntent::Confluence];
    for bound in intents {
        let manager = FlowManager::new(bound);
        assert_eq!(manager.intent(), bound);
        let code = manager.create_code_flow(&code_input("x"));
        let jira = manager.create_jira_flow(&jira_input("x"));
        let confluence = manager.create_confluence_flow(&confluence_input("x"));
        assert_eq!(code.is_ok(), bound == FlowIntent::Code);
        assert_eq!(jira.is_ok(), bound == FlowIntent::Jira);
        assert_eq!(confluence.is_ok(), bound == FlowIntent::Confluence);
        if let Err(e) = code {
            assert!(matches!(e, FlowError::InvalidIntent(_)));
            assert_eq!(
                e.message(),
                format!("Invalid intent: Expected Code intent, got {}", bound.as_str())
            );
        }
        if let Err(e) = jira {
            assert!(matches!(e, FlowError::InvalidIntent(_)));
            assert_eq!(
                e.message(),
                format!("Invalid intent: Expected Jira intent, got {}", bound.as_str())
            );
        }
        if let Err(e) = confluence {
            assert!(matches!(e, FlowError::InvalidIntent(_)));
            assert_eq!(
                e.message(),
                format!("Invalid intent: Expected Confluence intent, got {}", bound.as_str())
            );
        }
    }
}

#[test]
fn jira_flow_stops_before_review() {
    let manager = FlowManager::new(FlowIntent::Jira);
    let input = JiraFlowInput {
        title: "PROJ-123: Database migration".to_string(),
        description: "Migrate from MySQL to PostgreSQL".to_string(),
        project_key: Some("PROJ".to_string()),
    };
    let mut summary = manager.create_jira_flow(&input).unwrap();
    assert_eq!(summary.actions[3].name, "Review Jira");
    assert_eq!(summary.actions[4].name, "Finalize");
    let actions = manager.execute_flow(&mut summary).unwrap();
    assert_eq!(
        statuses(&actions),
        vec![
            FlowActionStatus::Completed,
            FlowActionStatus::Completed,
            FlowActionStatus::Completed,
            FlowActionStatus::Pending,
            FlowActionStatus::Pending
        ]
    );
    assert_eq!(statuses(&summary.actions), statuses(&actions));
    assert_eq!(names(&summary.actions), names(&actions));
}

#[test]
fn confluence_flow_stops_before_review() {
    let manager = FlowManager::new(FlowIntent::Confluence);
    let mut summary = manager.create_confluence_flow(&confluence_input("Docs")).unwrap();
    let actions = manager.execute_flow(&mut summary).unwrap();
    assert_eq!(
        statuses(&actions),
        vec![
            FlowActionStatus::Completed,
            FlowActionStatus::Completed,
            FlowActionStatus::Completed,
            FlowActionStatus::Pending,
            FlowActionStatus::Pending
        ]
    );
}

#[test]
fn executing_twice_gives_the_same_statuses() {
    for intent in [FlowIntent::Code, FlowIntent::Jira, FlowIntent::Confluence] {
        let manager = FlowManager::new(intent);
        let mut summary = match intent {
            FlowIntent::Code => manager.create_code_flow(&code_input("t")).unwrap(),
            FlowIntent::Jira => manager.create_jira_flow(&jira_input("t")).unwrap(),
            FlowIntent::Confluence => {
                manager.create_confluence_flow(&confluence_input("t")).unwrap()
            }
        };
        let first = manager.execute_flow(&mut summary).unwrap();
        let second = manager.execute_flow(&mut summary).unwrap();
        assert_eq!(statuses(&first), statuses(&second));
        assert_eq!(names(&first), names(&second));
    }
}

#[test]
fn unknown_action_names_fail_and_the_run_goes_on() {
    let manager = FlowManager::new(FlowIntent::Code);
    let mut summary = manager.create_code_flow(&code_input("t")).unwrap();
    summary.actions[1].name = "Something Else".to_string();
    let actions = manager.execute_flow(&mut summary).unwrap();
    assert_eq!(
        statuses(&actions),
        vec![
            FlowActionStatus::Completed,
            FlowActionStatus::Failed,
            FlowActionStatus::Completed,
            FlowActionStatus::Completed,
            FlowActionStatus::Completed
        ]
    );
    assert_eq!(actions[1].name, "Something Else");
}

#[test]
fn a_code_manager_fails_every_action_of_a_jira_summary_but_the_shared_none() {
    let mut summary =
        FlowManager::new(FlowIntent::Jira).create_jira_flow(&jira_input("t")).unwrap();
    let actions = FlowManager::new(FlowIntent::Code).execute_flow(&mut summary).unwrap();
    assert!(actions.iter().all(|a| a.status == FlowActionStatus::Failed));
    assert_eq!(summary.intent, FlowIntent::Jira);
    assert_eq!(summary.description, "Jira flow: t");
}

#[test]
fn an_empty_summary_runs_to_an_empty_list() {
    let manager = FlowManager::new(FlowIntent::Code);
    let mut summary = manager.create_code_flow(&code_input("t")).unwrap();
    summary.actions.clear();
    let actions = manager.execute_flow(&mut summary).unwrap();
    assert!(actions.is_empty());
}

#[test]
fn intents_and_statuses_keep_their_lower_case_spelling() {
    assert_eq!(FlowIntent::Code.as_str(), "code");
    assert_eq!(FlowIntent::Jira.as_str(), "jira");
    assert_eq!(FlowIntent::Confluence.as_str(), "confluence");
    assert_eq!(FlowIntent::Confluence.to_string(), "confluence");
    assert_eq!(FlowActionStatus::Pending.as_str(), "pending");
    assert_eq!(FlowActionStatus::InProgress.as_str(), "inprogress");
    assert_eq!(FlowActionStatus::Completed.as_str(), "completed");
    assert_eq!(FlowActionStatus::Failed.as_str(), "failed");
    assert!(FlowActionStatus::Completed.terminal());
    assert!(FlowActionStatus::Failed.terminal());
    assert!(!FlowActionStatus::Pending.terminal());
    assert!(!FlowActionStatus::InProgress.terminal());
}

#[test]
fn flow_error_messages_carry_their_prefix() {
    assert_eq!(FlowError::InvalidIntent("a".to_string()).message(), "Invalid intent: a");
    assert_eq!(FlowError::ExecutionFailed("b".to_string()).message(), "Flow execution failed: b");
    assert_eq!(FlowError::ConfigError("c".to_string()).message(), "Configuration error: c");
}

#[test]
fn summaries_and_inputs_can_be_copied() {
    let manager = FlowManager::new(FlowIntent::Code);
    let input = CodeFlowInput {
        title: "t".to_string(),
        description: "d".to_string(),
        repository_path: Some("/r".to_string()),
    };
    let copy = input.clone();
    assert_eq!(copy.title, "t");
    assert_eq!(copy.description, "d");
    assert_eq!(copy.repository_path.as_deref(), Some("/r"));
    let summary = manager.create_code_flow(&input).unwrap();
    let again = summary.clone();
    assert_eq!(again.intent, summary.intent);
    assert_eq!(again.description, summary.description);
    assert_eq!(names(&again.actions), names(&summary.actions));
    assert_eq!(manager.clone().intent(), FlowIntent::Code);
}
