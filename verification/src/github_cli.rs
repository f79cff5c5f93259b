//! Issues of the remote tracker as its command-line client lists them, and
//! the issues of the store that are made of them.

use vstd::prelude::*;
use vstd::string::StrSliceExecFns;
use crate::db::{Issue, IssuePriority, IssueStatus, Label};
use crate::text::{
    chars_of,
    clone_optional,
    contains_text,
    decimal_digits,
    has_text,
    lowercase,
    optional_view,
    push_decimal,
    same_text,
    strings_view,
    to_lowercase,
};
use crate::time::{instant, parsed_rfc3339, Timestamp};

verus! {

/// A label of a listed issue. A field that the listing lacks, or that is no
/// text there, is absent.
#[derive(Debug, Clone)]
pub struct CliLabel {
    pub name: Option<String>,
    /// The colour as six hexadecimal digits, without the `#`.
    pub color: Option<String>,
    pub description: Option<String>,
}

/// A listed issue. A field that the listing lacks, or that has another type
/// there, is absent; a missing list is empty.
#[derive(Debug, Clone)]
pub struct CliIssue {
    pub number: u64,
    pub title: Option<String>,
    pub body: Option<String>,
    pub state: Option<String>,
    pub labels: Vec<CliLabel>,
    /// The login of each assignee.
    pub assignees: Vec<Option<String>>,
    /// The date of creation in RFC 3339 form.
    pub created_at: Option<String>,
    /// The date of the last change in RFC 3339 form.
    pub updated_at: Option<String>,
}

/// The mark by which the title of a loaded issue names the issue of the
/// tracker: a `#` and its number.
pub open spec fn issue_mark(number: u64) -> Seq<char> {
    "#"@ + decimal_digits(number as nat)
}

/// Whether `issue` names the issue `number` of the tracker, in its title or in
/// its description. A mark that is part of a longer number counts too, so
/// this is a guess and no proof that the issue was loaded.
pub open spec fn mentions(issue: Issue, number: u64) -> bool {
    has_text(issue.title@, issue_mark(number)) || match issue.description {
        Some(d) => has_text(d@, issue_mark(number)),
        None => false,
    }
}

/// Whether one of `existing` names the issue `number` of the tracker.
pub fn already_loaded(existing: &Vec<Issue>, number: u64) -> (r: bool)
    ensures
        r == exists|i: int| 0 <= i < existing.len() && mentions(#[trigger] existing[i], number),
{
    let mut mark_text = String::new();
    mark_text.push_str("#");
    push_decimal(&mut mark_text, number);
    let mark = chars_of(mark_text.as_str());
    let mut i: usize = 0;
    while i < existing.len()
        invariant
            i <= existing.len(),
            mark@ == issue_mark(number),
            forall|k: int| 0 <= k < i ==> !mentions(#[trigger] existing[k], number),
        decreases existing.len() - i,
    {
        let title = chars_of(existing[i].title.as_str());
        if contains_text(&title, &mark) {
            return true;
        }
        match &existing[i].description {
            Some(d) => {
                let text = chars_of(d.as_str());
                if contains_text(&text, &mark) {
                    return true;
                }
            },
            None => {},
        }
        i += 1;
    }
    false
}

/// The label of the store for a label of a listed issue: the colour with a
/// `#` before it, grey where the listing gives none, and no description
/// where the listing gives none or an empty one. `None` for a label without
/// name.
pub fn label_from_cli(label: &CliLabel, created_at: Timestamp) -> (r: Option<Label>)
    ensures
        label.name is None ==> r is None,
        label.name is Some ==> r is Some,
        r matches Some(l) ==> {
            &&& l.id is None
            &&& l.name == label.name->0
            &&& l.color@ == "#"@ + match label.color {
                Some(c) => c@,
                None => "808080"@,
            }
            &&& l.description == match label.description {
                Some(d) => if d@.len() == 0 {
                    None
                } else {
                    Some(d)
                },
                None => None,
            }
            &&& l.created_at == created_at
        },
{
    let name = match &label.name {
        Some(name) => name.clone(),
        None => {
            return None;
        },
    };
    let mut color = String::new();
    color.push_str("#");
    match &label.color {
        Some(c) => color.push_str(c.as_str()),
        None => color.push_str("808080"),
    }
    let description = match &label.description {
        Some(d) => if d.as_str().unicode_len() == 0 {
            None
        } else {
            Some(d.clone())
        },
        None => None,
    };
    Some(Label { id: None, name, color, description, created_at })
}

/// The names of the labels that have one, in order.
pub open spec fn label_names(labels: Seq<CliLabel>) -> Seq<Seq<char>>
    decreases labels.len(),
{
    if labels.len() == 0 {
        Seq::empty()
    } else {
        let front = label_names(labels.drop_last());
        match labels.last().name {
            Some(name) => front.push(name@),
            None => front,
        }
    }
}

/// Whether one of `names` holds `word` once it is put in lower case.
pub open spec fn some_name_has(names: Seq<Seq<char>>, word: Seq<char>) -> bool {
    exists|i: int| 0 <= i < names.len() && has_text(lowercase(#[trigger] names[i]), word)
}

/// The priority that the names of labels give: the most urgent one that a
/// name holds, in any case of letters, and medium where none holds one.
pub open spec fn listed_priority(names: Seq<Seq<char>>) -> IssuePriority {
    if some_name_has(names, "critical"@) {
        IssuePriority::Critical
    } else if some_name_has(names, "high"@) {
        IssuePriority::High
    } else if some_name_has(names, "low"@) {
        IssuePriority::Low
    } else {
        IssuePriority::Medium
    }
}

/// The status of a listed issue: closed where its state says so, in any case
/// of letters, and open otherwise.
pub open spec fn listed_status(state: Option<String>) -> IssueStatus {
    let word = match state {
        Some(s) => s@,
        None => "open"@,
    };
    if lowercase(word) == "closed"@ {
        IssueStatus::Closed
    } else {
        IssueStatus::Open
    }
}

/// The instant that a date of a listing names, and `fallback` where the date
/// is absent or cannot be read.
pub open spec fn listed_instant(date: Option<String>, fallback: Timestamp) -> Timestamp {
    match date {
        Some(text) => match instant(parsed_rfc3339(text@)) {
            Some(t) => t,
            None => fallback,
        },
        None => fallback,
    }
}

/// The login of the first assignee, if the issue has one and the login is
/// there.
pub open spec fn first_assignee(assignees: Seq<Option<String>>) -> Option<String> {
    if assignees.len() == 0 {
        None
    } else {
        assignees[0]
    }
}

fn any_name_has(names: &Vec<String>, word: &str) -> (r: bool)
    ensures
        r == some_name_has(strings_view(names@), word@),
{
    let wanted = chars_of(word);
    let mut i: usize = 0;
    while i < names.len()
        invariant
            i <= names.len(),
            wanted@ == word@,
            forall|k: int|
                0 <= k < i ==> !has_text(lowercase(#[trigger] strings_view(names@)[k]), word@),
        decreases names.len() - i,
    {
        let lower = to_lowercase(names[i].as_str());
        let text = chars_of(lower.as_str());
        assert(strings_view(names@)[i as int] == names@[i as int]@);
        if contains_text(&text, &wanted) {
            return true;
        }
        i += 1;
    }
    false
}

fn names_of(labels: &Vec<CliLabel>) -> (r: Vec<String>)
    ensures
        strings_view(r@) == label_names(labels@),
{
    let mut r: Vec<String> = Vec::new();
    let mut i: usize = 0;
    assert(labels@.take(0) == Seq::<CliLabel>::empty());
    while i < labels.len()
        invariant
            i <= labels.len(),
            strings_view(r@) == label_names(labels@.take(i as int)),
        decreases labels.len() - i,
    {
        proof {
            let next = labels@.take(i + 1);
            assert(next.drop_last() == labels@.take(i as int));
            assert(next.last() == labels@[i as int]);
        }
        match &labels[i].name {
            Some(name) => {
                let copy = name.clone();
                assert(strings_view(r@.push(copy)) == strings_view(r@).push(copy@));
                r.push(copy);
            },
            None => {},
        }
        i += 1;
    }
    assert(labels@.take(labels.len() as int) == labels@);
    r
}

fn instant_or(date: &Option<String>, fallback: Timestamp) -> (r: Timestamp)
    ensures
        r == listed_instant(*date, fallback),
{
    match date {
        Some(text) => match Timestamp::parse_rfc3339(text.as_str()) {
            Some(t) => t,
            None => fallback,
        },
        None => fallback,
    }
}

/// The issue of the store for a listed issue. Its title begins with the mark
/// of the issue of the tracker; `now` stands in for a date that the listing
/// lacks.
pub fn issue_from_cli(listed: &CliIssue, now: Timestamp) -> (r: Issue)
    ensures
        r.id is None,
        r.title@ == issue_mark(listed.number) + ": "@ + match listed.title {
            Some(t) => t@,
            None => "Untitled Issue"@,
        },
        r.description == listed.body,
        r.status == listed_status(listed.state),
        r.priority == listed_priority(label_names(listed.labels@)),
        r.created_at == listed_instant(listed.created_at, now),
        r.updated_at == listed_instant(listed.updated_at, now),
        r.assignee == first_assignee(listed.assignees@),
        strings_view(r.labels@) == label_names(listed.labels@),
{
    let mut title = String::new();
    title.push_str("#");
    push_decimal(&mut title, listed.number);
    title.push_str(": ");
    match &listed.title {
        Some(t) => title.push_str(t.as_str()),
        None => title.push_str("Untitled Issue"),
    }
    let state = match &listed.state {
        Some(s) => to_lowercase(s.as_str()),
        None => to_lowercase("open"),
    };
    let status = if same_text(state.as_str(), "closed") {
        IssueStatus::Closed
    } else {
        IssueStatus::Open
    };
    let labels = names_of(&listed.labels);
    let priority = if any_name_has(&labels, "critical") {
        IssuePriority::Critical
    } else if any_name_has(&labels, "high") {
        IssuePriority::High
    } else if any_name_has(&labels, "low") {
        IssuePriority::Low
    } else {
        IssuePriority::Medium
    };
    let assignee = if listed.assignees.len() == 0 {
        None
    } else {
        clone_optional(&listed.assignees[0])
    };
    Issue {
        id: None,
        title,
        description: clone_optional(&listed.body),
        status,
        priority,
        created_at: instant_or(&listed.created_at, now),
        updated_at: instant_or(&listed.updated_at, now),
        assignee,
        labels,
    }
}

} // verus!
