use orchestrator::portfolio::{
    deleted, found, CreatePortfolio, Portfolio, PortfolioError, UpdatePortfolio,
};
use orchestrator::task_history::{CreateTaskHistory, TaskHistory, TaskHistoryEventType};

fn portfolio() -> Portfolio {
    Portfolio {
        id: 7,
        name: "Old".to_string(),
        description: Some("about".to_string()),
        theme: None,
        created_at: 10,
        updated_at: 20,
    }
}

#[test]
fn an_update_changes_only_what_is_given() {
    let nothing = UpdatePortfolio { name: None, description: None, theme: None };
    let same = nothing.apply(&portfolio());
    assert_eq!(same.id, 7);
    assert_eq!(same.name, "Old");
    assert_eq!(same.description.as_deref(), Some("about"));
    assert!(same.theme.is_none());
    assert_eq!(same.created_at, 10);
    assert_eq!(same.updated_at, 20);

    let all = UpdatePortfolio {
        name: Some("New".to_string()),
        description: Some("more".to_string()),
        theme: Some("dark".to_string()),
    };
    let changed = all.apply(&portfolio());
    assert_eq!(changed.name, "New");
    assert_eq!(changed.description.as_deref(), Some("more"));
    assert_eq!(changed.theme.as_deref(), Some("dark"));
    assert_eq!(changed.id, 7);

    let theme_only = UpdatePortfolio { name: None, description: None, theme: Some("x".to_string()) };
    let themed = theme_only.apply(&portfolio());
    assert_eq!(themed.name, "Old");
    assert_eq!(themed.description.as_deref(), Some("about"));
    assert_eq!(themed.theme.as_deref(), Some("x"));
}

#[test]
fn a_missing_portfolio_is_reported() {
    assert_eq!(found(Some(portfolio())).unwrap().name, "Old");
    match found::<Portfolio>(None) {
        Err(e) => {
            assert!(matches!(e, PortfolioError::PortfolioNotFound));
            assert_eq!(e.message(), "Portfolio not found");
        }
        Ok(_) => panic!("expected an error"),
    }
    assert!(deleted(1).is_ok());
    assert!(deleted(u64::MAX).is_ok());
    assert!(matches!(deleted(0), Err(PortfolioError::PortfolioNotFound)));
    assert_eq!(PortfolioError::Database("disk full".to_string()).message(), "disk full");
}

#[test]
fn portfolio_records_can_be_copied() {
    let p = portfolio().clone();
    assert_eq!(p.name, "Old");
    let c = CreatePortfolio { name: "n".to_string(), description: None, theme: Some("t".to_string()) };
    let d = c.clone();
    assert_eq!(d.name, "n");
    assert!(d.description.is_none());
    assert_eq!(d.theme.as_deref(), Some("t"));
}

#[test]
fn event_types_keep_their_snake_case_spelling() {
    let all = [
        (TaskHistoryEventType::StatusChanged, "status_changed"),
        (TaskHistoryEventType::DescriptionChanged, "description_changed"),
        (TaskHistoryEventType::TitleChanged, "title_changed"),
        (TaskHistoryEventType::PrBodyUpdated, "pr_body_updated"),
        (TaskHistoryEventType::ChangeRequested, "change_requested"),
        (TaskHistoryEventType::Other, "other"),
    ];
    for (kind, text) in all {
        assert_eq!(kind.as_str(), text);
        assert_eq!(kind.to_string(), text);
        assert_eq!(TaskHistoryEventType::parse(text), Some(kind));
    }
    assert_eq!(TaskHistoryEventType::parse("Other"), None);
    assert_eq!(TaskHistoryEventType::parse("status"), None);
}

#[test]
fn task_history_records_can_be_copied() {
    let data = CreateTaskHistory {
        task_id: 3,
        event_type: TaskHistoryEventType::TitleChanged,
        old_value: Some("a".to_string()),
        new_value: Some("b".to_string()),
        metadata: None,
    };
    let copy = data.clone();
    assert_eq!(copy.task_id, 3);
    assert_eq!(copy.event_type, TaskHistoryEventType::TitleChanged);
    assert_eq!(copy.old_value.as_deref(), Some("a"));
    assert_eq!(copy.new_value.as_deref(), Some("b"));
    assert!(copy.metadata.is_none());
    let entry = TaskHistory {
        id: 99,
        task_id: copy.task_id,
        event_type: copy.event_type,
        old_value: copy.old_value,
        new_value: copy.new_value,
        metadata: copy.metadata,
        created_at: 1234,
    };
    let again = entry.clone();
    assert_eq!(again.id, 99);
    assert_eq!(again.created_at, 1234);
    assert_eq!(again.new_value.as_deref(), Some("b"));
}
