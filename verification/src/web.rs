//! What the web interface answers, apart from the transport.

use vstd::prelude::*;
use vstd::string::StrSliceExecFns;
use crate::db::{Issue, IssuePriority, IssueStatus};
use crate::kanban::{
    cards_view,
    columns_view,
    empty_column,
    CardView,
    ColumnView,
    KanbanBoard,
    KanbanCard,
    KanbanColumn,
    Priority,
};
use crate::text::{
    chars_of,
    clone_optional,
    clone_strings,
    decimal_digits,
    optional_view,
    push_decimal,
    same_text,
    string_of,
    strings_view,
};
use crate::time::Timestamp;

verus! {

/// A request to move an issue from one column of the board to another.
#[derive(Debug)]
pub struct MoveIssueRequest {
    pub issue_number: u64,
    pub from_column: String,
    pub to_column: String,
}

/// The answer of an endpoint: whether it succeeded, its data, and a message.
#[derive(Debug)]
pub struct ApiResponse<T> {
    pub success: bool,
    pub data: Option<T>,
    pub message: Option<String>,
}

/// `s` with every backslash that is followed by `letter` replaced, together
/// with the letter, by `with`. The text is read from left to right, and what
/// has been replaced is not read again.
pub open spec fn replace_escape(s: Seq<char>, letter: char, with: char) -> Seq<char>
    decreases s.len(),
{
    if s.len() == 0 {
        s
    } else if s.len() >= 2 && s[0] == '\\' && s[1] == letter {
        seq![with] + replace_escape(s.skip(2), letter, with)
    } else {
        seq![s[0]] + replace_escape(s.skip(1), letter, with)
    }
}

/// `s` with the written escapes `\n`, `\t` and `\r` turned, in this order,
/// into the line feed, the tab and the carriage return that they stand for.
pub open spec fn unescaped(s: Seq<char>) -> Seq<char> {
    replace_escape(replace_escape(replace_escape(s, 'n', '\n'), 't', '\t'), 'r', '\r')
}

/// Replaces every backslash that is followed by `letter`.
fn replace_in(v: &Vec<char>, letter: char, with: char) -> (out: Vec<char>)
    ensures
        out@ == replace_escape(v@, letter, with),
{
    let n = v.len();
    let mut out: Vec<char> = Vec::new();
    let mut i: usize = 0;
    assert(v@.skip(0) == v@);
    while i < n
        invariant
            i <= n,
            n == v.len(),
            replace_escape(v@, letter, with) == out@ + replace_escape(
                v@.skip(i as int),
                letter,
                with,
            ),
        decreases n - i,
    {
        let ghost rest = v@.skip(i as int);
        let ghost done = out@;
        if n - i >= 2 && v[i] == '\\' && v[i + 1] == letter {
            out.push(with);
            proof {
                assert(rest[0] == v@[i as int] && rest[1] == v@[i + 1]);
                assert(rest.skip(2) == v@.skip(i + 2));
                assert(done + (seq![with] + replace_escape(rest.skip(2), letter, with))
                    == done.push(with) + replace_escape(rest.skip(2), letter, with));
            }
            i += 2;
        } else {
            out.push(v[i]);
            proof {
                assert(rest[0] == v@[i as int]);
                if rest.len() >= 2 {
                    assert(rest[1] == v@[i + 1]);
                }
                assert(rest.skip(1) == v@.skip(i + 1));
                assert(done + (seq![rest[0]] + replace_escape(rest.skip(1), letter, with))
                    == done.push(rest[0]) + replace_escape(rest.skip(1), letter, with));
            }
            i += 1;
        }
    }
    assert(v@.skip(n as int) == Seq::<char>::empty());
    assert(out@ + Seq::<char>::empty() == out@);
    out
}

/// The HTML that `pulldown-cmark` writes for the markdown `text` with the
/// named extensions switched on or off.
pub uninterp spec fn rendered_html(
    text: Seq<char>,
    strikethrough: bool,
    tables: bool,
    footnotes: bool,
    tasklists: bool,
    smart_punctuation: bool,
) -> Seq<char>;

/// `pulldown_cmark::html::push_html` on a `pulldown_cmark::Parser` made by
/// `new_ext` with the five options as given. The contract names the result.
#[verifier::external_body]
fn render_markdown(
    text: &str,
    strikethrough: bool,
    tables: bool,
    footnotes: bool,
    tasklists: bool,
    smart_punctuation: bool,
) -> (r: String)
    ensures
        r@ == rendered_html(text@, strikethrough, tables, footnotes, tasklists, smart_punctuation),
{
    let mut options = pulldown_cmark::Options::empty();
    options.set(pulldown_cmark::Options::ENABLE_STRIKETHROUGH, strikethrough);
    options.set(pulldown_cmark::Options::ENABLE_TABLES, tables);
    options.set(pulldown_cmark::Options::ENABLE_FOOTNOTES, footnotes);
    options.set(pulldown_cmark::Options::ENABLE_TASKLISTS, tasklists);
    options.set(pulldown_cmark::Options::ENABLE_SMART_PUNCTUATION, smart_punctuation);
    let mut out = String::new();
    pulldown_cmark::html::push_html(&mut out, pulldown_cmark::Parser::new_ext(text, options));
    out
}

/// The HTML of a markdown text as this crate renders it: written escapes
/// turned into the characters they stand for, and all five extensions on.
pub open spec fn markdown_html(markdown: Seq<char>) -> Seq<char> {
    rendered_html(unescaped(markdown), true, true, true, true, true)
}

/// Renders markdown as HTML.
pub fn markdown_to_html(markdown: &str) -> (r: String)
    ensures
        r@ == markdown_html(markdown@),
{
    let chars = chars_of(markdown);
    let a = replace_in(&chars, 'n', '\n');
    let b = replace_in(&a, 't', '\t');
    let c = replace_in(&b, 'r', '\r');
    let text = string_of(&c, 0, c.len());
    assert(c@.subrange(0, c.len() as int) == c@);
    render_markdown(text.as_str(), true, true, true, true, true)
}

/// The HTML of the body of a card, and a fixed text where it has no body.
pub fn card_body_html(card: &KanbanCard) -> (r: String)
    ensures
        r@ == match card.body {
            Some(body) => markdown_html(body@),
            None => "No description"@,
        },
{
    match &card.body {
        Some(body) => markdown_to_html(body.as_str()),
        None => "No description".to_owned(),
    }
}

/// The code point of `c`, and for an ASCII capital that of its small letter.
pub open spec fn lower_code(c: char) -> u32 {
    let n = c as u32;
    if 0x41 <= n <= 0x5A {
        (n + 0x20) as u32
    } else {
        n
    }
}

/// Whether `a` and `b` are the same text but for the case of ASCII letters.
pub open spec fn same_ignoring_case(a: Seq<char>, b: Seq<char>) -> bool {
    a.len() == b.len() && forall|i: int| 0 <= i < a.len() ==> lower_code(a[i]) == lower_code(b[i])
}

/// Whether one of `labels` is `name` but for the case of ASCII letters.
pub open spec fn names_label(labels: Seq<Seq<char>>, name: Seq<char>) -> bool {
    exists|i: int| 0 <= i < labels.len() && same_ignoring_case(#[trigger] labels[i], name)
}

fn lower(c: char) -> (r: u32)
    ensures
        r == lower_code(c),
{
    let n: u32 = c as u32;
    if 0x41 <= n && n <= 0x5A {
        n + 0x20
    } else {
        n
    }
}

fn matches_ignoring_case(a: &Vec<char>, b: &Vec<char>) -> (r: bool)
    ensures
        r == same_ignoring_case(a@, b@),
{
    if a.len() != b.len() {
        return false;
    }
    let mut i: usize = 0;
    while i < a.len()
        invariant
            i <= a.len(),
            a.len() == b.len(),
            forall|j: int| 0 <= j < i ==> lower_code(a@[j]) == lower_code(b@[j]),
        decreases a.len() - i,
    {
        if lower(a[i]) != lower(b[i]) {
            return false;
        }
        i += 1;
    }
    true
}

fn label_named(labels: &Vec<String>, name: &str) -> (r: bool)
    ensures
        r == names_label(strings_view(labels@), name@),
{
    let wanted = chars_of(name);
    let mut i: usize = 0;
    while i < labels.len()
        invariant
            i <= labels.len(),
            wanted@ == name@,
            forall|k: int|
                0 <= k < i ==> !same_ignoring_case(#[trigger] strings_view(labels@)[k], name@),
        decreases labels.len() - i,
    {
        let label = chars_of(labels[i].as_str());
        assert(strings_view(labels@)[i as int] == label@);
        if matches_ignoring_case(&label, &wanted) {
            return true;
        }
        i += 1;
    }
    false
}

/// The position of the column of the task board into which an issue with
/// `labels` goes: 3 for done, 2 for progressing, 1 for preparing, and 0, the
/// column of what is still evaluated, for everything else.
pub open spec fn board_column(labels: Seq<Seq<char>>) -> int {
    if names_label(labels, "done"@) {
        3
    } else if names_label(labels, "progressing"@) {
        2
    } else if names_label(labels, "preparing"@) {
        1
    } else {
        0
    }
}

/// The number under which the board shows an issue of the store: its key as
/// an unsigned number, and zero where it has none.
pub open spec fn issue_number_of(id: Option<i64>) -> u64 {
    match id {
        Some(n) => if n >= 0 {
            n as u64
        } else {
            (n + 0x1_0000_0000_0000_0000) as u64
        },
        None => 0,
    }
}

/// The priority of a card for the priority of an issue of the store.
pub open spec fn board_priority(priority: IssuePriority) -> Priority {
    match priority {
        IssuePriority::Low => Priority::Low,
        IssuePriority::Medium => Priority::Medium,
        IssuePriority::High => Priority::High,
        IssuePriority::Critical => Priority::Critical,
    }
}

/// The card of an issue of the store.
pub open spec fn board_card(issue: Issue) -> CardView {
    CardView {
        issue_number: issue_number_of(issue.id),
        title: issue.title@,
        body: optional_view(issue.description),
        assignee: optional_view(issue.assignee),
        labels: strings_view(issue.labels@),
        priority: board_priority(issue.priority),
        created_at: issue.created_at,
        updated_at: issue.updated_at,
        comments_count: 0,
    }
}

/// Whether the task board shows `issue` in its column `k`: only open issues
/// are shown.
pub open spec fn shown_in(issue: Issue, k: int) -> bool {
    issue.status == IssueStatus::Open && board_column(strings_view(issue.labels@)) == k
}

/// The cards of column `k` of the task board of `issues`, in the order of the
/// issues.
pub open spec fn column_cards(issues: Seq<Issue>, k: int) -> Seq<CardView> {
    issues.filter(|issue: Issue| shown_in(issue, k)).map_values(|issue: Issue| board_card(issue))
}

/// The four columns of the task board of `issues`.
pub open spec fn task_board_columns(issues: Seq<Issue>) -> Seq<ColumnView> {
    seq![
        ColumnView {
            cards: column_cards(issues, 0),
            ..empty_column("evaluating"@, "Evaluating"@, "Evaluating"@, "#fef2c0"@)
        },
        ColumnView {
            cards: column_cards(issues, 1),
            ..empty_column("preparing"@, "Preparing"@, "Preparing"@, "#fef3c7"@)
        },
        ColumnView {
            cards: column_cards(issues, 2),
            ..empty_column("progressing"@, "Progressing"@, "Progressing"@, "#bfdbfe"@)
        },
        ColumnView {
            cards: column_cards(issues, 3),
            ..empty_column("done"@, "Done"@, "Done"@, "#bbf7d0"@)
        },
    ]
}

/// One more issue adds its card to the column that shows it, and to no other.
pub proof fn lemma_column_cards_step(issues: Seq<Issue>, i: int, k: int)
    requires
        0 <= i < issues.len(),
    ensures
        column_cards(issues.take(i + 1), k) == if shown_in(issues[i], k) {
            column_cards(issues.take(i), k).push(board_card(issues[i]))
        } else {
            column_cards(issues.take(i), k)
        },
{
    reveal(Seq::filter);
    let next = issues.take(i + 1);
    let shown = |issue: Issue| shown_in(issue, k);
    let card = |issue: Issue| board_card(issue);
    assert(next.drop_last() == issues.take(i));
    assert(next.last() == issues[i]);
    if shown_in(issues[i], k) {
        assert(next.filter(shown) == issues.take(i).filter(shown).push(issues[i]));
        assert(next.filter(shown).map_values(card) =~= issues.take(i).filter(shown).map_values(
            card,
        ).push(card(issues[i])));
    }
}

fn number_of(id: Option<i64>) -> (r: u64)
    ensures
        r == issue_number_of(id),
{
    match id {
        Some(n) => if n >= 0 {
            n as u64
        } else {
            u64::MAX - ((-(n + 1)) as u64)
        },
        None => 0,
    }
}

fn card_of_issue(issue: &Issue) -> (r: KanbanCard)
    ensures
        r@ == board_card(*issue),
{
    KanbanCard {
        issue_number: number_of(issue.id),
        title: issue.title.clone(),
        body: clone_optional(&issue.description),
        assignee: clone_optional(&issue.assignee),
        labels: clone_strings(&issue.labels),
        priority: match issue.priority {
            IssuePriority::Low => Priority::Low,
            IssuePriority::Medium => Priority::Medium,
            IssuePriority::High => Priority::High,
            IssuePriority::Critical => Priority::Critical,
        },
        created_at: issue.created_at,
        updated_at: issue.updated_at,
        comments_count: 0,
    }
}

fn column_of(labels: &Vec<String>) -> (k: usize)
    ensures
        k == board_column(strings_view(labels@)),
{
    if label_named(labels, "done") {
        3
    } else if label_named(labels, "progressing") {
        2
    } else if label_named(labels, "preparing") {
        1
    } else {
        0
    }
}

fn board_column_of(id: &str, title: &str, color: &str, cards: Vec<KanbanCard>) -> (r: KanbanColumn)
    ensures
        r@ == (ColumnView { cards: cards_view(cards@), ..empty_column(id@, title@, title@, color@) }),
{
    KanbanColumn {
        id: id.to_owned(),
        title: title.to_owned(),
        label_name: title.to_owned(),
        cards,
        color: color.to_owned(),
    }
}

/// The task board of the issues of the store, last updated at `now`: the
/// open issues, each in the column that its labels name.
pub fn board_from_issues(issues: &Vec<Issue>, now: Timestamp) -> (r: KanbanBoard)
    ensures
        r.title@ == "Task Board"@,
        columns_view(r.columns@) == task_board_columns(issues@),
        r.last_updated == now,
{
    let mut evaluating: Vec<KanbanCard> = Vec::new();
    let mut preparing: Vec<KanbanCard> = Vec::new();
    let mut progressing: Vec<KanbanCard> = Vec::new();
    let mut done: Vec<KanbanCard> = Vec::new();
    let mut i: usize = 0;
    proof {
        reveal(Seq::filter);
        assert(issues@.take(0) == Seq::<Issue>::empty());
        assert(column_cards(issues@.take(0), 0) =~= Seq::<CardView>::empty());
        assert(column_cards(issues@.take(0), 1) =~= Seq::<CardView>::empty());
        assert(column_cards(issues@.take(0), 2) =~= Seq::<CardView>::empty());
        assert(column_cards(issues@.take(0), 3) =~= Seq::<CardView>::empty());
    }
    while i < issues.len()
        invariant
            i <= issues.len(),
            cards_view(evaluating@) == column_cards(issues@.take(i as int), 0),
            cards_view(preparing@) == column_cards(issues@.take(i as int), 1),
            cards_view(progressing@) == column_cards(issues@.take(i as int), 2),
            cards_view(done@) == column_cards(issues@.take(i as int), 3),
        decreases issues.len() - i,
    {
        let issue = &issues[i];
        proof {
            lemma_column_cards_step(issues@, i as int, 0);
            lemma_column_cards_step(issues@, i as int, 1);
            lemma_column_cards_step(issues@, i as int, 2);
            lemma_column_cards_step(issues@, i as int, 3);
        }
        if issue.status == IssueStatus::Open {
            let card = card_of_issue(issue);
            let k = column_of(&issue.labels);
            if k == 3 {
                assert(cards_view(done@.push(card)) == cards_view(done@).push(card@));
                done.push(card);
            } else if k == 2 {
                assert(cards_view(progressing@.push(card)) == cards_view(progressing@).push(
                    card@,
                ));
                progressing.push(card);
            } else if k == 1 {
                assert(cards_view(preparing@.push(card)) == cards_view(preparing@).push(card@));
                preparing.push(card);
            } else {
                assert(cards_view(evaluating@.push(card)) == cards_view(evaluating@).push(card@));
                evaluating.push(card);
            }
        }
        i += 1;
    }
    assert(issues@.take(issues.len() as int) == issues@);
    let mut columns: Vec<KanbanColumn> = Vec::new();
    columns.push(board_column_of("evaluating", "Evaluating", "#fef2c0", evaluating));
    columns.push(board_column_of("preparing", "Preparing", "#fef3c7", preparing));
    columns.push(board_column_of("progressing", "Progressing", "#bfdbfe", progressing));
    columns.push(board_column_of("done", "Done", "#bbf7d0", done));
    assert(columns_view(columns@) =~= task_board_columns(issues@));
    KanbanBoard { columns, title: "Task Board".to_owned(), last_updated: now }
}

/// The status that a move into `column` gives an issue; `None` for a column
/// that the board does not move into.
pub open spec fn column_status(column: Seq<char>) -> Option<IssueStatus> {
    if column == "preparing"@ {
        Some(IssueStatus::Open)
    } else if column == "progressing"@ {
        Some(IssueStatus::InProgress)
    } else if column == "completed"@ {
        Some(IssueStatus::Closed)
    } else {
        None
    }
}

/// The status that a move into `column` gives an issue.
pub fn status_for_column(column: &str) -> (r: Option<IssueStatus>)
    ensures
        r == column_status(column@),
{
    if same_text(column, "preparing") {
        Some(IssueStatus::Open)
    } else if same_text(column, "progressing") {
        Some(IssueStatus::InProgress)
    } else if same_text(column, "completed") {
        Some(IssueStatus::Closed)
    } else {
        None
    }
}

/// The key under which the store keeps the issue that the board shows under
/// `issue_number`.
pub open spec fn issue_key_of(issue_number: u64) -> i64 {
    if issue_number <= i64::MAX {
        issue_number as i64
    } else {
        (issue_number - 0x1_0000_0000_0000_0000) as i64
    }
}

/// The key under which the store keeps the issue that the board shows under
/// `issue_number`.
pub fn issue_key(issue_number: u64) -> (r: i64)
    ensures
        r == issue_key_of(issue_number),
{
    if issue_number <= 0x7fff_ffff_ffff_ffff {
        issue_number as i64
    } else {
        -1 - ((u64::MAX - issue_number) as i64)
    }
}

/// How a request to move an issue ended.
#[derive(Debug, Clone)]
pub enum MoveOutcome {
    /// The board does not move issues into the column that was asked for.
    InvalidColumn,
    /// The store holds no issue under the number.
    NotFound,
    /// The store failed when it was asked for the issue; its words are kept.
    LookupFailed(String),
    /// The store failed when the status was to be changed; its words are kept.
    UpdateFailed(String),
    /// The issue has its new status.
    Moved,
}

/// What the store answered while an issue was being moved, and the request
/// itself as the first event.
#[derive(Debug, Clone)]
pub enum MoveEvent {
    /// The request has come in.
    Requested,
    /// The store holds the issue.
    Found,
    /// The store holds no issue under the number.
    NotFound,
    /// The store failed when it was asked for the issue.
    LookupFailed(String),
    /// The store has changed the status of the issue.
    Updated,
    /// The store failed when the status was to be changed.
    UpdateFailed(String),
}

/// What is to be done next for a request to move an issue.
#[derive(Debug, Clone)]
pub enum MoveAction {
    /// Ask the store for the issue under this key.
    Lookup(i64),
    /// Give the issue under this key this status.
    Update(i64, IssueStatus),
    /// Answer the request with this outcome.
    Respond(MoveOutcome),
}

/// What follows `event` for the request `request`: a request for a column
/// that the board moves into is looked up, an issue that is found gets the
/// status of the column, and everything else ends the move.
pub open spec fn move_action(request: MoveIssueRequest, event: MoveEvent) -> MoveAction {
    match event {
        MoveEvent::Requested => match column_status(request.to_column@) {
            Some(_) => MoveAction::Lookup(issue_key_of(request.issue_number)),
            None => MoveAction::Respond(MoveOutcome::InvalidColumn),
        },
        MoveEvent::Found => match column_status(request.to_column@) {
            Some(status) => MoveAction::Update(issue_key_of(request.issue_number), status),
            None => MoveAction::Respond(MoveOutcome::InvalidColumn),
        },
        MoveEvent::NotFound => MoveAction::Respond(MoveOutcome::NotFound),
        MoveEvent::LookupFailed(cause) => MoveAction::Respond(MoveOutcome::LookupFailed(cause)),
        MoveEvent::Updated => MoveAction::Respond(MoveOutcome::Moved),
        MoveEvent::UpdateFailed(cause) => MoveAction::Respond(MoveOutcome::UpdateFailed(cause)),
    }
}

/// What is to be done next for the request `request` after `event`.
pub fn move_step(request: &MoveIssueRequest, event: MoveEvent) -> (r: MoveAction)
    ensures
        r == move_action(*request, event),
{
    match event {
        MoveEvent::Requested => match status_for_column(request.to_column.as_str()) {
            Some(_) => MoveAction::Lookup(issue_key(request.issue_number)),
            None => MoveAction::Respond(MoveOutcome::InvalidColumn),
        },
        MoveEvent::Found => match status_for_column(request.to_column.as_str()) {
            Some(status) => MoveAction::Update(issue_key(request.issue_number), status),
            None => MoveAction::Respond(MoveOutcome::InvalidColumn),
        },
        MoveEvent::NotFound => MoveAction::Respond(MoveOutcome::NotFound),
        MoveEvent::LookupFailed(cause) => MoveAction::Respond(MoveOutcome::LookupFailed(cause)),
        MoveEvent::Updated => MoveAction::Respond(MoveOutcome::Moved),
        MoveEvent::UpdateFailed(cause) => MoveAction::Respond(MoveOutcome::UpdateFailed(cause)),
    }
}

/// The message that answers a request to move an issue.
pub open spec fn move_message(request: MoveIssueRequest, outcome: MoveOutcome) -> Seq<char> {
    let number = decimal_digits(request.issue_number as nat);
    match outcome {
        MoveOutcome::InvalidColumn => "Invalid column: "@ + request.to_column@,
        MoveOutcome::NotFound => "Issue #"@ + number + " not found"@,
        MoveOutcome::LookupFailed(cause) => "Database error: "@ + cause@,
        MoveOutcome::UpdateFailed(cause) => "Failed to move issue: "@ + cause@,
        MoveOutcome::Moved => "Successfully moved issue #"@ + number + " from "@
            + request.from_column@ + " to "@ + request.to_column@,
    }
}

/// The answer to a request to move an issue: a success only where the issue
/// was moved, and always a message.
pub fn move_response(request: &MoveIssueRequest, outcome: MoveOutcome) -> (r: ApiResponse<()>)
    ensures
        r.success == (outcome is Moved),
        r.data == if outcome is Moved {
            Some(())
        } else {
            None
        },
        optional_view(r.message) == Some(move_message(*request, outcome)),
{
    let mut message = String::new();
    let mut success = false;
    match outcome {
        MoveOutcome::InvalidColumn => {
            message.push_str("Invalid column: ");
            message.push_str(request.to_column.as_str());
        },
        MoveOutcome::NotFound => {
            message.push_str("Issue #");
            push_decimal(&mut message, request.issue_number);
            message.push_str(" not found");
        },
        MoveOutcome::LookupFailed(cause) => {
            message.push_str("Database error: ");
            message.push_str(cause.as_str());
        },
        MoveOutcome::UpdateFailed(cause) => {
            message.push_str("Failed to move issue: ");
            message.push_str(cause.as_str());
        },
        MoveOutcome::Moved => {
            message.push_str("Successfully moved issue #");
            push_decimal(&mut message, request.issue_number);
            message.push_str(" from ");
            message.push_str(request.from_column.as_str());
            message.push_str(" to ");
            message.push_str(request.to_column.as_str());
            success = true;
        },
    }
    assert(message@ =~= move_message(*request, outcome));
    ApiResponse {
        success,
        data: if success {
            Some(())
        } else {
            None
        },
        message: Some(message),
    }
}

/// Whether the board has a column `column_id` that can be refreshed.
pub open spec fn is_refreshable(column_id: Seq<char>) -> bool {
    column_id == "preparing"@ || column_id == "progressing"@ || column_id == "completed"@
}

/// The answer to a request to refresh a column: a success for a column that
/// the board has. The cards come from the store on every reading, so nothing
/// else is done.
pub fn refresh_response(column_id: &str) -> (r: ApiResponse<()>)
    ensures
        r.success == is_refreshable(column_id@),
        r.data == if is_refreshable(column_id@) {
            Some(())
        } else {
            None
        },
        optional_view(r.message) == Some(
            if is_refreshable(column_id@) {
                "Successfully refreshed column '"@ + column_id@ + "'"@
            } else {
                "Column '"@ + column_id@ + "' not found"@
            },
        ),
{
    let known = same_text(column_id, "preparing") || same_text(column_id, "progressing")
        || same_text(column_id, "completed");
    let mut message = String::new();
    if known {
        message.push_str("Successfully refreshed column '");
        message.push_str(column_id);
        message.push_str("'");
    } else {
        message.push_str("Column '");
        message.push_str(column_id);
        message.push_str("' not found");
    }
    assert(message@ =~= if is_refreshable(column_id@) {
        "Successfully refreshed column '"@ + column_id@ + "'"@
    } else {
        "Column '"@ + column_id@ + "' not found"@
    });
    ApiResponse {
        success: known,
        data: if known {
            Some(())
        } else {
            None
        },
        message: Some(message),
    }
}

/// The answer to a request for the board: the board, or the words of the
/// failure that kept it from being read.
pub fn board_response(board: Result<KanbanBoard, String>) -> (r: ApiResponse<KanbanBoard>)
    ensures
        match board {
            Ok(b) => r.success && r.data == Some(b) && r.message is None,
            Err(cause) => !r.success && r.data is None && optional_view(r.message) == Some(
                "Failed to fetch board: "@ + cause@,
            ),
        },
{
    match board {
        Ok(b) => ApiResponse { success: true, data: Some(b), message: None },
        Err(cause) => {
            let mut message = String::new();
            message.push_str("Failed to fetch board: ");
            message.push_str(cause.as_str());
            assert(message@ =~= "Failed to fetch board: "@ + cause@);
            ApiResponse { success: false, data: None, message: Some(message) }
        },
    }
}

} // verus!
