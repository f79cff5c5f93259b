use atask::kanban::{
    backlog_issues, issues_with_label, plan_move, priority_of_labels, refresh_column, KanbanBoard,
    KanbanCard, KanbanColumn, Priority, RemoteIssue,
};
use atask::time::Timestamp;

fn now() -> Timestamp {
    let t = chrono::Utc::now();
    Timestamp { secs: t.timestamp(), nanos: t.timestamp_subsec_nanos() }
}

fn remote_issue(number: u64, labels: &[&str]) -> RemoteIssue {
    RemoteIssue {
        number,
        title: format!("Issue {}", number),
        body: Some("body".to_string()),
        assignee: Some("octocat".to_string()),
        labels: labels.iter().map(|l| l.to_string()).collect(),
        created_at: Timestamp { secs: 10, nanos: 0 },
        updated_at: Timestamp { secs: 20, nanos: 0 },
        comments: 3,
    }
}

#[test]
fn test_kanban_board_creation() {
    let board = KanbanBoard::new("Test Project".to_string(), now());

    assert_eq!(board.title, "Test Project");
    assert_eq!(board.columns.len(), 4);
    assert_eq!(board.total_cards(), 0);

    let column_names: Vec<&str> = board.columns.iter().map(|col| col.title.as_str()).collect();
    assert_eq!(column_names, vec!["Preparing", "Progressing", "Done", "Backlog"]);
}

#[test]
fn new_board_has_its_default_columns_and_the_given_date() {
    let at = Timestamp { secs: 1_704_103_200, nanos: 7 };
    let board = KanbanBoard::new("T".to_string(), at);
    let ids: Vec<&str> = board.columns.iter().map(|c| c.id.as_str()).collect();
    assert_eq!(ids, vec!["preparing", "progressing", "done", "backlog"]);
    let labels: Vec<&str> = board.columns.iter().map(|c| c.label_name.as_str()).collect();
    assert_eq!(labels, vec!["Preparing", "Progressing", "Done", ""]);
    let colors: Vec<&str> = board.columns.iter().map(|c| c.color.as_str()).collect();
    assert_eq!(colors, vec!["#fef3c7", "#bfdbfe", "#bbf7d0", "#f3f4f6"]);
    assert_eq!(board.last_updated, at);
}

#[test]
fn test_kanban_column_creation() {
    let column = KanbanColumn::new(
        "test".to_string(),
        "Test Column".to_string(),
        "test-label".to_string(),
        "#ffffff".to_string(),
    );

    assert_eq!(column.id, "test");
    assert_eq!(column.title, "Test Column");
    assert_eq!(column.label_name, "test-label");
    assert_eq!(column.color, "#ffffff");
    assert_eq!(column.cards.len(), 0);
}

#[test]
fn test_kanban_card_priority_default() {
    let card = KanbanCard {
        issue_number: 1,
        title: "Test Issue".to_string(),
        body: None,
        assignee: None,
        labels: Vec::new(),
        priority: Priority::default(),
        created_at: now(),
        updated_at: now(),
        comments_count: 0,
    };

    assert_eq!(card.priority, Priority::Medium);
}

#[test]
fn test_kanban_card_priority_from_labels() {
    let mut card = KanbanCard {
        issue_number: 1,
        title: "Critical Bug".to_string(),
        body: None,
        assignee: None,
        labels: vec!["bug".to_string(), "critical".to_string()],
        priority: Priority::default(),
        created_at: now(),
        updated_at: now(),
        comments_count: 0,
    };

    card.set_priority_from_labels();
    assert_eq!(card.priority, Priority::Critical);

    card.labels = vec!["enhancement".to_string(), "high".to_string()];
    card.set_priority_from_labels();
    assert_eq!(card.priority, Priority::High);

    card.labels = vec!["documentation".to_string(), "low".to_string()];
    card.set_priority_from_labels();
    assert_eq!(card.priority, Priority::Low);
}

#[test]
fn priority_goes_by_the_most_urgent_word_in_two_cases_of_letters() {
    let labels = |names: &[&str]| names.iter().map(|n| n.to_string()).collect::<Vec<String>>();
    assert_eq!(priority_of_labels(&labels(&[])), Priority::Medium);
    assert_eq!(priority_of_labels(&labels(&["bug"])), Priority::Medium);
    assert_eq!(priority_of_labels(&labels(&["low", "High", "Critical"])), Priority::Critical);
    assert_eq!(priority_of_labels(&labels(&["Low", "priority: high"])), Priority::High);
    assert_eq!(priority_of_labels(&labels(&["very Low"])), Priority::Low);
    assert_eq!(priority_of_labels(&labels(&["CRITICAL", "HIGH", "LOW"])), Priority::Medium);
    assert_eq!(priority_of_labels(&labels(&["follow-up"])), Priority::Low);
}

#[test]
fn test_column_add_remove_cards() {
    let mut column = KanbanColumn::new(
        "test".to_string(),
        "Test".to_string(),
        "test".to_string(),
        "#ffffff".to_string(),
    );

    let card = KanbanCard {
        issue_number: 1,
        title: "Test Issue".to_string(),
        body: None,
        assignee: None,
        labels: Vec::new(),
        priority: Priority::Medium,
        created_at: now(),
        updated_at: now(),
        comments_count: 0,
    };

    column.add_card(card.clone());
    assert_eq!(column.cards.len(), 1);

    let removed = column.remove_card(1);
    assert!(removed.is_some());
    assert_eq!(column.cards.len(), 0);

    let not_removed = column.remove_card(999);
    assert!(not_removed.is_none());
}

#[test]
fn remove_card_takes_the_first_card_of_the_issue() {
    let mut column =
        KanbanColumn::new("c".to_string(), "C".to_string(), "C".to_string(), "#000".to_string());
    for (number, title) in [(1, "a"), (2, "b"), (1, "c"), (3, "d")] {
        let mut card = KanbanCard::from_github_issue(&remote_issue(number, &[]));
        card.title = title.to_string();
        column.add_card(card);
    }
    let removed = column.remove_card(1).unwrap();
    assert_eq!(removed.title, "a");
    let left: Vec<&str> = column.cards.iter().map(|c| c.title.as_str()).collect();
    assert_eq!(left, vec!["b", "c", "d"]);
    assert!(column.remove_card(7).is_none());
    assert_eq!(column.cards.len(), 3);
}

#[test]
fn test_board_total_cards() {
    let mut board = KanbanBoard::new("Test".to_string(), now());

    let card1 = KanbanCard {
        issue_number: 1,
        title: "Issue 1".to_string(),
        body: None,
        assignee: None,
        labels: Vec::new(),
        priority: Priority::Medium,
        created_at: now(),
        updated_at: now(),
        comments_count: 0,
    };

    let card2 = KanbanCard {
        issue_number: 2,
        title: "Issue 2".to_string(),
        body: None,
        assignee: None,
        labels: Vec::new(),
        priority: Priority::High,
        created_at: now(),
        updated_at: now(),
        comments_count: 0,
    };

    board.columns[0].add_card(card1);
    board.columns[1].add_card(card2);

    assert_eq!(board.total_cards(), 2);
}

#[test]
fn card_of_a_remote_issue_copies_its_fields() {
    let issue = remote_issue(12, &["bug", "high"]);
    let card = KanbanCard::from_github_issue(&issue);
    assert_eq!(card.issue_number, 12);
    assert_eq!(card.title, "Issue 12");
    assert_eq!(card.body, Some("body".to_string()));
    assert_eq!(card.assignee, Some("octocat".to_string()));
    assert_eq!(card.labels, vec!["bug".to_string(), "high".to_string()]);
    assert_eq!(card.priority, Priority::Medium);
    assert_eq!(card.created_at, Timestamp { secs: 10, nanos: 0 });
    assert_eq!(card.updated_at, Timestamp { secs: 20, nanos: 0 });
    assert_eq!(card.comments_count, 3);
}

#[test]
fn board_puts_each_issue_into_the_first_column_whose_label_it_carries() {
    let issues = vec![
        remote_issue(1, &["Done", "Preparing"]),
        remote_issue(2, &["bug"]),
        remote_issue(3, &["Progressing", "critical"]),
        remote_issue(4, &["done"]),
        remote_issue(5, &["Done"]),
        remote_issue(6, &[]),
    ];
    let at = Timestamp { secs: 5, nanos: 0 };
    let board = KanbanBoard::from_issues("Board".to_string(), &issues, at);
    assert_eq!(board.title, "Board");
    assert_eq!(board.last_updated, at);
    let numbers = |k: usize| -> Vec<u64> {
        board.columns[k].cards.iter().map(|c| c.issue_number).collect()
    };
    assert_eq!(numbers(0), vec![1]);
    assert_eq!(numbers(1), vec![3]);
    assert_eq!(numbers(2), vec![5]);
    assert_eq!(numbers(3), vec![2, 4, 6]);
    assert_eq!(board.columns[1].cards[0].priority, Priority::Critical);
    assert_eq!(board.total_cards(), 6);
}

#[test]
fn issues_are_filtered_by_label_and_for_the_backlog() {
    let all = || {
        vec![
            remote_issue(1, &["Preparing"]),
            remote_issue(2, &["bug"]),
            remote_issue(3, &["bug", "Done"]),
            remote_issue(4, &[]),
            remote_issue(5, &["preparing"]),
        ]
    };
    let numbers = |v: Vec<RemoteIssue>| v.iter().map(|i| i.number).collect::<Vec<u64>>();
    assert_eq!(numbers(issues_with_label(all(), "bug")), vec![2, 3]);
    assert_eq!(numbers(issues_with_label(all(), "Preparing")), vec![1]);
    assert_eq!(numbers(issues_with_label(all(), "none")), Vec::<u64>::new());
    assert_eq!(numbers(backlog_issues(all())), vec![2, 4, 5]);
}

#[test]
fn refresh_replaces_the_cards_of_a_column() {
    let all = || {
        vec![
            remote_issue(1, &["Preparing", "low"]),
            remote_issue(2, &["bug"]),
            remote_issue(3, &["Preparing"]),
        ]
    };
    let mut column = KanbanColumn::new(
        "preparing".to_string(),
        "Preparing".to_string(),
        "Preparing".to_string(),
        "#fef3c7".to_string(),
    );
    column.add_card(KanbanCard::from_github_issue(&remote_issue(99, &[])));
    refresh_column(&mut column, all());
    let numbers: Vec<u64> = column.cards.iter().map(|c| c.issue_number).collect();
    assert_eq!(numbers, vec![1, 3]);
    assert_eq!(column.cards[0].priority, Priority::Low);
    assert_eq!(column.id, "preparing");
    let mut backlog = KanbanColumn::new(
        "backlog".to_string(),
        "Backlog".to_string(),
        "".to_string(),
        "#f3f4f6".to_string(),
    );
    refresh_column(&mut backlog, all());
    let numbers: Vec<u64> = backlog.cards.iter().map(|c| c.issue_number).collect();
    assert_eq!(numbers, vec![2]);
}

#[test]
fn move_between_columns_changes_the_labels() {
    let plan = plan_move("Preparing", "Progressing");
    assert_eq!(plan.remove_label, Some("Preparing".to_string()));
    assert_eq!(plan.add_label, Some("Progressing".to_string()));
    let plan = plan_move("backlog", "Done");
    assert_eq!(plan.remove_label, None);
    assert_eq!(plan.add_label, Some("Done".to_string()));
    let plan = plan_move("Done", "backlog");
    assert_eq!(plan.remove_label, Some("Done".to_string()));
    assert_eq!(plan.add_label, None);
    let plan = plan_move("", "");
    assert_eq!(plan.remove_label, None);
    assert_eq!(plan.add_label, None);
}
