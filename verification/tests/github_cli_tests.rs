use atask::db::{Issue, IssuePriority, IssueStatus};
use atask::github_cli::{already_loaded, issue_from_cli, label_from_cli, CliIssue, CliLabel};
use atask::time::Timestamp;

fn now() -> Timestamp {
    Timestamp { secs: 1_704_103_200, nanos: 0 }
}

fn label(name: &str) -> CliLabel {
    CliLabel { name: Some(name.to_string()), color: Some("d73a4a".to_string()), description: None }
}

fn listed() -> CliIssue {
    CliIssue {
        number: 42,
        title: Some("Fix the parser".to_string()),
        body: Some("It fails on tabs".to_string()),
        state: Some("OPEN".to_string()),
        labels: vec![label("bug"), CliLabel { name: None, color: None, description: None }, label("Priority: HIGH")],
        assignees: vec![Some("alice".to_string()), Some("bob".to_string())],
        created_at: Some("2024-02-01T08:00:00Z".to_string()),
        updated_at: Some("2024-02-02T08:00:00+01:00".to_string()),
    }
}

fn stored(title: &str, description: Option<&str>) -> Issue {
    Issue {
        id: Some(1),
        title: title.to_string(),
        description: description.map(|d| d.to_string()),
        status: IssueStatus::Open,
        priority: IssuePriority::Medium,
        created_at: now(),
        updated_at: now(),
        assignee: None,
        labels: vec![],
    }
}

#[test]
fn listed_issue_becomes_an_issue_of_the_store() {
    let issue = issue_from_cli(&listed(), now());
    assert_eq!(issue.id, None);
    assert_eq!(issue.title, "#42: Fix the parser");
    assert_eq!(issue.description, Some("It fails on tabs".to_string()));
    assert_eq!(issue.status, IssueStatus::Open);
    assert_eq!(issue.priority, IssuePriority::High);
    assert_eq!(issue.created_at, Timestamp { secs: 1_706_774_400, nanos: 0 });
    assert_eq!(issue.updated_at, Timestamp { secs: 1_706_857_200, nanos: 0 });
    assert_eq!(issue.assignee, Some("alice".to_string()));
    assert_eq!(issue.labels, vec!["bug".to_string(), "Priority: HIGH".to_string()]);
}

#[test]
fn listed_issue_with_gaps_gets_defaults() {
    let bare = CliIssue {
        number: 7,
        title: None,
        body: None,
        state: None,
        labels: vec![],
        assignees: vec![],
        created_at: None,
        updated_at: Some("soon".to_string()),
    };
    let issue = issue_from_cli(&bare, now());
    assert_eq!(issue.title, "#7: Untitled Issue");
    assert_eq!(issue.description, None);
    assert_eq!(issue.status, IssueStatus::Open);
    assert_eq!(issue.priority, IssuePriority::Medium);
    assert_eq!(issue.created_at, now());
    assert_eq!(issue.updated_at, now());
    assert_eq!(issue.assignee, None);
    assert!(issue.labels.is_empty());
    let mut first_without_login = listed();
    first_without_login.assignees = vec![None, Some("bob".to_string())];
    assert_eq!(issue_from_cli(&first_without_login, now()).assignee, None);
}

#[test]
fn state_and_priority_are_read_in_any_case_of_letters() {
    let mut closed = listed();
    closed.state = Some("CLOSED".to_string());
    closed.labels = vec![label("low"), label("CRITICAL path")];
    let issue = issue_from_cli(&closed, now());
    assert_eq!(issue.status, IssueStatus::Closed);
    assert_eq!(issue.priority, IssuePriority::Critical);
    closed.state = Some("closed ".to_string());
    closed.labels = vec![label("Low")];
    let issue = issue_from_cli(&closed, now());
    assert_eq!(issue.status, IssueStatus::Open);
    assert_eq!(issue.priority, IssuePriority::Low);
}

#[test]
fn loaded_issues_are_found_by_their_mark() {
    let existing = vec![
        stored("#42: Fix the parser", None),
        stored("Other", Some("see #7 for details")),
        stored("Plain", None),
    ];
    assert!(already_loaded(&existing, 42));
    assert!(already_loaded(&existing, 7));
    assert!(already_loaded(&existing, 4));
    assert!(!already_loaded(&existing, 2));
    assert!(!already_loaded(&existing, 8));
    assert!(!already_loaded(&vec![], 42));
}

#[test]
fn listed_label_becomes_a_label_of_the_store() {
    let l = label_from_cli(
        &CliLabel {
            name: Some("bug".to_string()),
            color: Some("d73a4a".to_string()),
            description: Some("Something isn't working".to_string()),
        },
        now(),
    )
    .unwrap();
    assert_eq!(l.id, None);
    assert_eq!(l.name, "bug");
    assert_eq!(l.color, "#d73a4a");
    assert_eq!(l.description, Some("Something isn't working".to_string()));
    assert_eq!(l.created_at, now());
    let l = label_from_cli(
        &CliLabel { name: Some("x".to_string()), color: None, description: Some("".to_string()) },
        now(),
    )
    .unwrap();
    assert_eq!(l.color, "#808080");
    assert_eq!(l.description, None);
    assert!(label_from_cli(&CliLabel { name: None, color: None, description: None }, now())
        .is_none());
}
