//! The records that the store keeps, and the rows in which it keeps them.

use vstd::prelude::*;
use crate::error::ParseError;
use crate::text::{clone_optional, optional_view, same_text, strings_view};
use crate::time::{instant, parsed_rfc3339, rfc3339_text, stored_instant, Timestamp};

verus! {

/// One commit of the history, as the store keeps it.
#[derive(Debug, Clone)]
pub struct GitCommit {
    pub id: Option<i64>,
    pub hash: String,
    pub author_name: String,
    pub author_email: String,
    pub commit_date: Timestamp,
    pub message: String,
    pub files_changed: Vec<String>,
    pub insertions: i32,
    pub deletions: i32,
}

/// What a commit record says, as mathematical values.
pub struct CommitView {
    pub id: Option<i64>,
    pub hash: Seq<char>,
    pub author_name: Seq<char>,
    pub author_email: Seq<char>,
    pub commit_date: Timestamp,
    pub message: Seq<char>,
    pub files_changed: Seq<Seq<char>>,
    pub insertions: int,
    pub deletions: int,
}

impl CommitView {
    /// Neither line count is negative.
    pub open spec fn wf(self) -> bool {
        0 <= self.insertions && 0 <= self.deletions
    }
}

impl View for GitCommit {
    type V = CommitView;

    open spec fn view(&self) -> CommitView {
        CommitView {
            id: self.id,
            hash: self.hash@,
            author_name: self.author_name@,
            author_email: self.author_email@,
            commit_date: self.commit_date,
            message: self.message@,
            files_changed: strings_view(self.files_changed@),
            insertions: self.insertions as int,
            deletions: self.deletions as int,
        }
    }
}

impl GitCommit {
    /// Neither line count is negative.
    pub open spec fn wf(&self) -> bool {
        self@.wf()
    }
}

/// What a list of commit records says, in order.
pub open spec fn commits_view(v: Seq<GitCommit>) -> Seq<CommitView> {
    Seq::new(v.len(), |i: int| v[i]@)
}

/// Where an issue stands in its life.
#[derive(Debug, Clone, Copy, PartialEq, Eq, Structural)]
pub enum IssueStatus {
    Open,
    InProgress,
    Resolved,
    Closed,
}

/// How urgent an issue is.
#[derive(Debug, Clone, Copy, PartialEq, Eq, Structural)]
pub enum IssuePriority {
    Low,
    Medium,
    High,
    Critical,
}

impl IssueStatus {
    /// The word under which the store keeps this status.
    pub open spec fn text(self) -> Seq<char> {
        match self {
            IssueStatus::Open => "open"@,
            IssueStatus::InProgress => "in_progress"@,
            IssueStatus::Resolved => "resolved"@,
            IssueStatus::Closed => "closed"@,
        }
    }

    /// The status that `text` names, if it names one.
    pub open spec fn named(text: Seq<char>) -> Option<IssueStatus> {
        if text == "open"@ {
            Some(IssueStatus::Open)
        } else if text == "in_progress"@ {
            Some(IssueStatus::InProgress)
        } else if text == "resolved"@ {
            Some(IssueStatus::Resolved)
        } else if text == "closed"@ {
            Some(IssueStatus::Closed)
        } else {
            None
        }
    }

    /// The word under which the store keeps this status.
    pub fn to_string(&self) -> (r: String)
        ensures
            r@ == self.text(),
    {
        match self {
            IssueStatus::Open => "open".to_owned(),
            IssueStatus::InProgress => "in_progress".to_owned(),
            IssueStatus::Resolved => "resolved".to_owned(),
            IssueStatus::Closed => "closed".to_owned(),
        }
    }

    /// Reads a status from the word under which the store keeps it.
    pub fn from_str(s: &str) -> (r: Result<IssueStatus, ParseError>)
        ensures
            match IssueStatus::named(s@) {
                Some(status) => r == Ok::<IssueStatus, ParseError>(status),
                None => r == Err::<IssueStatus, ParseError>(ParseError::InvalidStatus),
            },
    {
        if same_text(s, "open") {
            Ok(IssueStatus::Open)
        } else if same_text(s, "in_progress") {
            Ok(IssueStatus::InProgress)
        } else if same_text(s, "resolved") {
            Ok(IssueStatus::Resolved)
        } else if same_text(s, "closed") {
            Ok(IssueStatus::Closed)
        } else {
            Err(ParseError::InvalidStatus)
        }
    }
}

impl std::str::FromStr for IssueStatus {
    type Err = ParseError;

    /// Reads a status from the word under which the store keeps it, as the
    /// function of the same name on the type does.
    fn from_str(s: &str) -> (r: Result<IssueStatus, ParseError>)
        ensures
            match IssueStatus::named(s@) {
                Some(status) => r == Ok::<IssueStatus, ParseError>(status),
                None => r == Err::<IssueStatus, ParseError>(ParseError::InvalidStatus),
            },
    {
        IssueStatus::from_str(s)
    }
}

impl IssuePriority {
    /// The word under which the store keeps this priority.
    pub open spec fn text(self) -> Seq<char> {
        match self {
            IssuePriority::Low => "low"@,
            IssuePriority::Medium => "medium"@,
            IssuePriority::High => "high"@,
            IssuePriority::Critical => "critical"@,
        }
    }

    /// The priority that `text` names, if it names one.
    pub open spec fn named(text: Seq<char>) -> Option<IssuePriority> {
        if text == "low"@ {
            Some(IssuePriority::Low)
        } else if text == "medium"@ {
            Some(IssuePriority::Medium)
        } else if text == "high"@ {
            Some(IssuePriority::High)
        } else if text == "critical"@ {
            Some(IssuePriority::Critical)
        } else {
            None
        }
    }

    /// The word under which the store keeps this priority.
    pub fn to_string(&self) -> (r: String)
        ensures
            r@ == self.text(),
    {
        match self {
            IssuePriority::Low => "low".to_owned(),
            IssuePriority::Medium => "medium".to_owned(),
            IssuePriority::High => "high".to_owned(),
            IssuePriority::Critical => "critical".to_owned(),
        }
    }

    /// Reads a priority from the word under which the store keeps it.
    pub fn from_str(s: &str) -> (r: Result<IssuePriority, ParseError>)
        ensures
            match IssuePriority::named(s@) {
                Some(priority) => r == Ok::<IssuePriority, ParseError>(priority),
                None => r == Err::<IssuePriority, ParseError>(ParseError::InvalidPriority),
            },
    {
        if same_text(s, "low") {
            Ok(IssuePriority::Low)
        } else if same_text(s, "medium") {
            Ok(IssuePriority::Medium)
        } else if same_text(s, "high") {
            Ok(IssuePriority::High)
        } else if same_text(s, "critical") {
            Ok(IssuePriority::Critical)
        } else {
            Err(ParseError::InvalidPriority)
        }
    }
}

impl std::str::FromStr for IssuePriority {
    type Err = ParseError;

    /// Reads a priority from the word under which the store keeps it, as the
    /// function of the same name on the type does.
    fn from_str(s: &str) -> (r: Result<IssuePriority, ParseError>)
        ensures
            match IssuePriority::named(s@) {
                Some(priority) => r == Ok::<IssuePriority, ParseError>(priority),
                None => r == Err::<IssuePriority, ParseError>(ParseError::InvalidPriority),
            },
    {
        IssuePriority::from_str(s)
    }
}

/// Every status is read back from its own word.
pub proof fn lemma_status_round_trip(status: IssueStatus)
    ensures
        IssueStatus::named(status.text()) == Some(status),
{
    reveal_strlit("open");
    reveal_strlit("in_progress");
    reveal_strlit("resolved");
    reveal_strlit("closed");
    assert("in_progress"@[0] == 'i');
    assert("resolved"@[0] == 'r');
    assert("closed"@[0] == 'c');
    assert("open"@[0] == 'o');
}

/// Every priority is read back from its own word.
pub proof fn lemma_priority_round_trip(priority: IssuePriority)
    ensures
        IssuePriority::named(priority.text()) == Some(priority),
{
    reveal_strlit("low");
    reveal_strlit("medium");
    reveal_strlit("high");
    reveal_strlit("critical");
    assert("low"@[0] == 'l');
    assert("medium"@[0] == 'm');
    assert("high"@[0] == 'h');
    assert("critical"@[0] == 'c');
}

/// The JSON text that `serde_json` writes for a list of strings.
pub uninterp spec fn json_text(list: Seq<Seq<char>>) -> Seq<char>;

/// The list of strings that `serde_json` reads from `text`; `None` where the
/// text is not a JSON array of strings.
pub uninterp spec fn parsed_file_list(text: Seq<char>) -> Option<Seq<Seq<char>>>;

/// `serde_json::to_string` on a list of strings. The contract names the text,
/// says that the call succeeds (its documentation gives two causes of failure:
/// a `Serialize` that fails and a map with keys that are no strings; a list of
/// strings has neither), and says that `serde_json` reads the same list back
/// from the text, in the same order.
#[verifier::external_body]
fn strings_to_json(list: &Vec<String>) -> (r: Option<String>)
    ensures
        r is Some,
        r matches Some(text) ==> text@ == json_text(strings_view(list@)),
        r matches Some(text) ==> parsed_file_list(text@) == Some(strings_view(list@)),
{
    match serde_json::to_string(list) {
        Ok(text) => Some(text),
        Err(_) => None,
    }
}

/// `serde_json::from_str` for a list of strings. The contract names the
/// result.
#[verifier::external_body]
fn json_to_strings(text: &str) -> (r: Option<Vec<String>>)
    ensures
        match parsed_file_list(text@) {
            Some(list) => r matches Some(v) && strings_view(v@) == list,
            None => r is None,
        },
{
    match serde_json::from_str::<Vec<String>>(text) {
        Ok(list) => Some(list),
        Err(_) => None,
    }
}

/// A commit as one row of the store: the date as RFC 3339 text, and the list
/// of files as the text of a JSON array.
#[derive(Debug, Clone)]
pub struct CommitRow {
    pub hash: String,
    pub author_name: String,
    pub author_email: String,
    pub commit_date: String,
    pub message: String,
    pub files_changed: String,
    pub insertions: i32,
    pub deletions: i32,
}

impl CommitRow {
    /// The record that this row holds, under the key `id`, or why it holds none.
    pub open spec fn record(&self, id: i64) -> Result<CommitView, ParseError> {
        match parsed_file_list(self.files_changed@) {
            None => Err(ParseError::InvalidFileList),
            Some(files) => match instant(parsed_rfc3339(self.commit_date@)) {
                None => Err(ParseError::InvalidDate),
                Some(date) => if self.insertions < 0 || self.deletions < 0 {
                    Err(ParseError::InvalidCount)
                } else {
                    Ok(
                        CommitView {
                            id: Some(id),
                            hash: self.hash@,
                            author_name: self.author_name@,
                            author_email: self.author_email@,
                            commit_date: date,
                            message: self.message@,
                            files_changed: files,
                            insertions: self.insertions as int,
                            deletions: self.deletions as int,
                        },
                    )
                },
            },
        }
    }
}

impl GitCommit {
    /// The row under which the store keeps this record; `None` where the store
    /// cannot keep its date or one of its line counts is negative, so that the
    /// store never holds a row that cannot be read. Whatever key the store
    /// gives the row, the record is read back from it unchanged: the list of
    /// files exactly as it stands in the record, in the same order.
    pub fn to_row(&self) -> (r: Option<CommitRow>)
        ensures
            r is Some <==> self.commit_date.storable() && self.wf(),
            r matches Some(row) ==> forall|id: i64| #[trigger]
                row.record(id) == Ok::<CommitView, ParseError>(
                    CommitView { id: Some(id), ..self@ },
                ),
            r matches Some(row) ==> {
                &&& row.hash == self.hash
                &&& row.author_name == self.author_name
                &&& row.author_email == self.author_email
                &&& row.commit_date@ == rfc3339_text(self.commit_date.secs, self.commit_date.nanos)
                &&& row.message == self.message
                &&& row.files_changed@ == json_text(self@.files_changed)
                &&& parsed_file_list(row.files_changed@) == Some(self@.files_changed)
                &&& row.insertions == self.insertions
                &&& row.deletions == self.deletions
            },
    {
        if self.insertions < 0 || self.deletions < 0 {
            return None;
        }
        let date = self.commit_date.to_stored();
        let files = strings_to_json(&self.files_changed);
        match (date, files) {
            (Some(commit_date), Some(files_changed)) => Some(
                CommitRow {
                    hash: self.hash.clone(),
                    author_name: self.author_name.clone(),
                    author_email: self.author_email.clone(),
                    commit_date,
                    message: self.message.clone(),
                    files_changed,
                    insertions: self.insertions,
                    deletions: self.deletions,
                },
            ),
            _ => None,
        }
    }

    /// The record that the row `row` holds under the key `id`.
    pub fn from_row(id: i64, row: CommitRow) -> (r: Result<GitCommit, ParseError>)
        ensures
            match row.record(id) {
                Ok(record) => r matches Ok(commit) && commit@ == record && commit.wf()
                    && commit.commit_date.valid(),
                Err(e) => r == Err::<GitCommit, ParseError>(e),
            },
    {
        let files_changed = match json_to_strings(row.files_changed.as_str()) {
            Some(files) => files,
            None => {
                return Err(ParseError::InvalidFileList);
            },
        };
        let commit_date = match Timestamp::parse_rfc3339(row.commit_date.as_str()) {
            Some(date) => date,
            None => {
                return Err(ParseError::InvalidDate);
            },
        };
        if row.insertions < 0 || row.deletions < 0 {
            return Err(ParseError::InvalidCount);
        }
        Ok(
            GitCommit {
                id: Some(id),
                hash: row.hash,
                author_name: row.author_name,
                author_email: row.author_email,
                commit_date,
                message: row.message,
                files_changed,
                insertions: row.insertions,
                deletions: row.deletions,
            },
        )
    }
}

/// The list of files survives the store: a row whose list of files reads
/// back as that of a record, which is what `to_row` makes, holds a record
/// with exactly that list, in the same order, whenever it holds one.
pub proof fn lemma_files_round_trip(commit: GitCommit, row: CommitRow, id: i64)
    requires
        parsed_file_list(row.files_changed@) == Some(commit@.files_changed),
    ensures
        row.record(id) matches Ok(back) ==> back.files_changed == commit@.files_changed,
{
}

/// A label that issues can carry.
#[derive(Debug, Clone)]
pub struct Label {
    pub id: Option<i64>,
    pub name: String,
    pub color: String,
    pub description: Option<String>,
    pub created_at: Timestamp,
}

/// A label as one row of the store.
#[derive(Debug, Clone)]
pub struct LabelRow {
    pub id: i64,
    pub name: String,
    pub color: String,
    pub description: Option<String>,
    pub created_at: String,
}

impl Label {
    /// The label that the row `row` holds. Its date may stand in RFC 3339 form
    /// or in the form that the store writes by itself.
    pub fn from_row(row: LabelRow) -> (r: Result<Label, ParseError>)
        ensures
            match stored_instant(row.created_at@) {
                Some(date) => r matches Ok(label) && label.id == Some(row.id) && label.name
                    == row.name && label.color == row.color && label.description
                    == row.description && label.created_at == date,
                None => r == Err::<Label, ParseError>(ParseError::InvalidDate),
            },
    {
        match Timestamp::parse_stored(row.created_at.as_str()) {
            Ok(created_at) => Ok(
                Label {
                    id: Some(row.id),
                    name: row.name,
                    color: row.color,
                    description: row.description,
                    created_at,
                },
            ),
            Err(e) => Err(e),
        }
    }
}

/// A task of the project.
#[derive(Debug, Clone)]
pub struct Issue {
    pub id: Option<i64>,
    pub title: String,
    pub description: Option<String>,
    pub status: IssueStatus,
    pub priority: IssuePriority,
    pub created_at: Timestamp,
    pub updated_at: Timestamp,
    pub assignee: Option<String>,
    pub labels: Vec<String>,
}

/// An issue as one row of the store, without its labels.
#[derive(Debug, Clone)]
pub struct IssueRow {
    pub title: String,
    pub description: Option<String>,
    pub status: String,
    pub priority: String,
    pub assignee: Option<String>,
    pub created_at: String,
    pub updated_at: String,
}

/// What the store is given when an issue is inserted. The store sets the date
/// of creation by itself.
#[derive(Debug, Clone)]
pub struct NewIssueRow {
    pub title: String,
    pub description: Option<String>,
    pub status: String,
    pub priority: String,
    pub assignee: Option<String>,
    pub updated_at: String,
}

impl IssueRow {
    /// What is wrong with this row, if anything: the first of its two dates,
    /// its status and its priority that cannot be read.
    pub open spec fn fault(&self) -> Option<ParseError> {
        if stored_instant(self.created_at@) is None || stored_instant(self.updated_at@) is None {
            Some(ParseError::InvalidDate)
        } else if IssueStatus::named(self.status@) is None {
            Some(ParseError::InvalidStatus)
        } else if IssuePriority::named(self.priority@) is None {
            Some(ParseError::InvalidPriority)
        } else {
            None
        }
    }
}

impl Issue {
    /// What the store is given for this issue; `None` where the store cannot
    /// keep the date of its last change. The date is read back from the row
    /// unchanged, and so are the status and the priority.
    pub fn to_row(&self) -> (r: Option<NewIssueRow>)
        ensures
            r is Some <==> self.updated_at.storable(),
            r matches Some(row) ==> {
                &&& stored_instant(row.updated_at@) == Some(self.updated_at)
                &&& IssueStatus::named(row.status@) == Some(self.status)
                &&& IssuePriority::named(row.priority@) == Some(self.priority)
            },
            r matches Some(row) ==> {
                &&& row.title == self.title
                &&& row.description == self.description
                &&& row.status@ == self.status.text()
                &&& row.priority@ == self.priority.text()
                &&& row.assignee == self.assignee
                &&& row.updated_at@ == rfc3339_text(self.updated_at.secs, self.updated_at.nanos)
            },
    {
        proof {
            lemma_status_round_trip(self.status);
            lemma_priority_round_trip(self.priority);
        }
        match self.updated_at.to_stored() {
            None => None,
            Some(updated_at) => Some(
                NewIssueRow {
                    title: self.title.clone(),
                    description: clone_optional(&self.description),
                    status: self.status.to_string(),
                    priority: self.priority.to_string(),
                    assignee: clone_optional(&self.assignee),
                    updated_at,
                },
            ),
        }
    }

    /// The issue that the row `row` holds under the key `id`, with the labels
    /// that the store attaches to it.
    pub fn from_row(id: i64, row: IssueRow, labels: Vec<String>) -> (r: Result<Issue, ParseError>)
        ensures
            match row.fault() {
                Some(e) => r == Err::<Issue, ParseError>(e),
                None => r matches Ok(issue) && {
                    &&& issue.id == Some(id)
                    &&& issue.title == row.title
                    &&& issue.description == row.description
                    &&& Some(issue.status) == IssueStatus::named(row.status@)
                    &&& Some(issue.priority) == IssuePriority::named(row.priority@)
                    &&& Some(issue.created_at) == stored_instant(row.created_at@)
                    &&& Some(issue.updated_at) == stored_instant(row.updated_at@)
                    &&& issue.assignee == row.assignee
                    &&& issue.labels == labels
                },
            },
    {
        let created_at = match Timestamp::parse_stored(row.created_at.as_str()) {
            Ok(date) => date,
            Err(e) => {
                return Err(e);
            },
        };
        let updated_at = match Timestamp::parse_stored(row.updated_at.as_str()) {
            Ok(date) => date,
            Err(e) => {
                return Err(e);
            },
        };
        let status = match IssueStatus::from_str(row.status.as_str()) {
            Ok(status) => status,
            Err(e) => {
                return Err(e);
            },
        };
        let priority = match IssuePriority::from_str(row.priority.as_str()) {
            Ok(priority) => priority,
            Err(e) => {
                return Err(e);
            },
        };
        Ok(
            Issue {
                id: Some(id),
                title: row.title,
                description: row.description,
                status,
                priority,
                created_at,
                updated_at,
                assignee: row.assignee,
                labels,
            },
        )
    }
}

/// The name, the colour and the description of each label that a new store
/// is given, in order.
pub open spec fn default_label_texts() -> Seq<(Seq<char>, Seq<char>, Seq<char>)> {
    seq![
        ("bug"@, "#d73a4a"@, "Something isn't working"@),
        ("enhancement"@, "#a2eeef"@, "New feature or request"@),
        ("documentation"@, "#0075ca"@, "Improvements or additions to documentation"@),
        ("good first issue"@, "#7057ff"@, "Good for newcomers"@),
        ("help wanted"@, "#008672"@, "Extra attention is needed"@),
        ("invalid"@, "#e4e669"@, "This doesn't seem right"@),
        ("question"@, "#d876e3"@, "Further information is requested"@),
        ("wontfix"@, "#ffffff"@, "This will not be worked on"@),
    ]
}

fn default_label(name: &str, color: &str, description: &str, created_at: Timestamp) -> (r: Label)
    ensures
        r.id is None,
        r.name@ == name@,
        r.color@ == color@,
        optional_view(r.description) == Some(description@),
        r.created_at == created_at,
{
    Label {
        id: None,
        name: name.to_owned(),
        color: color.to_owned(),
        description: Some(description.to_owned()),
        created_at,
    }
}

/// The eight labels that a new store is given, in the order of
/// `default_label_texts`, each without key and made at `created_at`.
pub fn default_labels(created_at: Timestamp) -> (r: Vec<Label>)
    ensures
        r.len() == default_label_texts().len(),
        forall|i: int|
            0 <= i < r.len() ==> {
                &&& (#[trigger] r[i]).id is None
                &&& r[i].name@ == default_label_texts()[i].0
                &&& r[i].color@ == default_label_texts()[i].1
                &&& optional_view(r[i].description) == Some(default_label_texts()[i].2)
                &&& r[i].created_at == created_at
            },
{
    let mut r: Vec<Label> = Vec::new();
    r.push(default_label("bug", "#d73a4a", "Something isn't working", created_at));
    r.push(default_label("enhancement", "#a2eeef", "New feature or request", created_at));
    r.push(
        default_label(
            "documentation",
            "#0075ca",
            "Improvements or additions to documentation",
            created_at,
        ),
    );
    r.push(default_label("good first issue", "#7057ff", "Good for newcomers", created_at));
    r.push(default_label("help wanted", "#008672", "Extra attention is needed", created_at));
    r.push(default_label("invalid", "#e4e669", "This doesn't seem right", created_at));
    r.push(default_label("question", "#d876e3", "Further information is requested", created_at));
    r.push(default_label("wontfix", "#ffffff", "This will not be worked on", created_at));
    r
}

} // verus!
