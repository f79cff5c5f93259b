//! The log-stream extractor: commit records read from the text of a commit log.
//!
//! The text holds one header line per commit, `hash|author|email|date|subject`,
//! followed by the commit's stat lines, `insertions<TAB>deletions<TAB>path`. A
//! stat block ends at an empty line, at the end of the text, or at a line that
//! looks like a header: one that holds a `|` and is longer than a full hash.
//! That last rule is a guess, kept because header and stat lines carry no other
//! mark: a path with a `|` in a line of more than forty bytes ends its block.

use vstd::prelude::*;
use crate::db::{commits_view, CommitView, GitCommit};
use crate::error::ParseError;
use crate::text::{
    chars_of,
    count_value,
    cut,
    cut_at,
    find,
    find_char,
    has_char,
    lemma_count_nonnegative,
    parse_count,
    rows_view,
    split_trimmed_lines,
    string_of,
    strings_view,
    trim,
    trim_bounds,
    trimmed_lines,
    utf8_len,
    utf8_longer_than,
};
use crate::time::{civil_instant, Timestamp};

verus! {

/// The five fields of a header line.
pub struct HeaderFields {
    pub hash: Seq<char>,
    pub author_name: Seq<char>,
    pub author_email: Seq<char>,
    pub date: Seq<char>,
    pub subject: Seq<char>,
}

/// The fields of `line` read as a header: the texts between its first four
/// `|`, and all that follows the fourth. `None` where it has fewer than four.
pub open spec fn header_fields(line: Seq<char>) -> Option<HeaderFields> {
    match cut(line, '|') {
        None => None,
        Some((hash, after_hash)) => match cut(after_hash, '|') {
            None => None,
            Some((author_name, after_name)) => match cut(after_name, '|') {
                None => None,
                Some((author_email, after_email)) => match cut(after_email, '|') {
                    None => None,
                    Some((date, subject)) => Some(
                        HeaderFields { hash, author_name, author_email, date, subject },
                    ),
                },
            },
        },
    }
}

/// The three fields of a stat line.
pub struct StatFields {
    pub insertions: int,
    pub deletions: int,
    pub path: Seq<char>,
}

/// The fields of `line` read as a stat line: the counts before its first two
/// tabs, and the path up to the third tab or the end. A count that is no
/// number counts as zero. `None` where the line has fewer than two tabs.
pub open spec fn stat_fields(line: Seq<char>) -> Option<StatFields> {
    match cut(line, '\t') {
        None => None,
        Some((insertions, after_insertions)) => match cut(after_insertions, '\t') {
            None => None,
            Some((deletions, rest)) => Some(
                StatFields {
                    insertions: count_value(insertions),
                    deletions: count_value(deletions),
                    path: rest.take(find(rest, '\t')),
                },
            ),
        },
    }
}

/// Whether a line inside a stat block is taken for the next header: it holds
/// a `|` and is longer than the forty bytes of a full hash.
pub open spec fn looks_like_header(line: Seq<char>) -> bool {
    has_char(line, '|') && utf8_len(line) > 40
}

/// The sum of two line counts, held at the largest `i32`.
pub open spec fn saturating_sum(a: int, b: int) -> int {
    if a + b > i32::MAX {
        i32::MAX as int
    } else {
        a + b
    }
}

/// The record that a header opens: no files yet, and both counts zero.
pub open spec fn new_commit(h: HeaderFields, date: Timestamp) -> CommitView {
    CommitView {
        id: None,
        hash: h.hash,
        author_name: h.author_name,
        author_email: h.author_email,
        commit_date: date,
        message: trim(h.subject),
        files_changed: Seq::empty(),
        insertions: 0,
        deletions: 0,
    }
}

/// The record `c` after one more stat line.
pub open spec fn add_stat(c: CommitView, st: StatFields) -> CommitView {
    CommitView {
        files_changed: c.files_changed.push(st.path),
        insertions: saturating_sum(c.insertions, st.insertions),
        deletions: saturating_sum(c.deletions, st.deletions),
        ..c
    }
}

/// The state of a scan: the records that are complete, the record whose stat
/// block is being read, and whether a header with an unreadable date has
/// stopped the scan.
pub struct ScanView {
    pub commits: Seq<CommitView>,
    pub current: Option<CommitView>,
    pub failed: bool,
}

/// The state before the first line.
pub open spec fn scan_start() -> ScanView {
    ScanView { commits: Seq::empty(), current: None, failed: false }
}

/// Ends the stat block that is being read, if there is one.
pub open spec fn close(s: ScanView) -> ScanView {
    match s.current {
        Some(c) => ScanView { commits: s.commits.push(c), current: None, failed: s.failed },
        None => s,
    }
}

/// Reads `line` while no stat block is open: a header with a readable date
/// opens a record, a header with an unreadable date stops the scan, and any
/// other line is passed over.
pub open spec fn await_header(s: ScanView, line: Seq<char>) -> ScanView {
    match header_fields(line) {
        None => s,
        Some(h) => match civil_instant(h.date) {
            None => ScanView { failed: true, ..s },
            Some(date) => ScanView { current: Some(new_commit(h, date)), ..s },
        },
    }
}

/// The state after one more line, which is given trimmed.
pub open spec fn step(s: ScanView, line: Seq<char>) -> ScanView {
    if s.failed {
        s
    } else if s.current is Some {
        if line.len() == 0 {
            close(s)
        } else if looks_like_header(line) {
            await_header(close(s), line)
        } else {
            match stat_fields(line) {
                Some(st) => ScanView { current: Some(add_stat(s.current->0, st)), ..s },
                None => s,
            }
        }
    } else {
        await_header(s, line)
    }
}

/// The state after all of `lines`, read from the first to the last.
pub open spec fn run(lines: Seq<Seq<char>>) -> ScanView
    decreases lines.len(),
{
    if lines.len() == 0 {
        scan_start()
    } else {
        step(run(lines.drop_last()), lines.last())
    }
}

/// What a commit log holds: the records up to its end or up to the first
/// header with an unreadable date, and whether there was such a header.
pub open spec fn scan_log(text: Seq<char>) -> ScanView {
    close(run(trimmed_lines(text)))
}

impl ScanView {
    /// No record of the scan has a negative line count.
    pub open spec fn wf(self) -> bool {
        &&& forall|i: int| 0 <= i < self.commits.len() ==> (#[trigger] self.commits[i]).wf()
        &&& self.current matches Some(c) ==> c.wf()
    }
}

/// A stat line never has a negative count.
pub proof fn lemma_stat_counts(line: Seq<char>)
    ensures
        stat_fields(line) matches Some(st) ==> st.insertions >= 0 && st.deletions >= 0,
{
    match cut(line, '\t') {
        None => {},
        Some((insertions, rest)) => {
            lemma_count_nonnegative(insertions);
            match cut(rest, '\t') {
                None => {},
                Some((deletions, _)) => {
                    lemma_count_nonnegative(deletions);
                },
            }
        },
    }
}

/// One more line leaves the line counts of a scan without negative number.
pub proof fn lemma_step_wf(s: ScanView, line: Seq<char>)
    requires
        s.wf(),
    ensures
        step(s, line).wf(),
{
    lemma_stat_counts(line);
}

/// No record that is read from the lines of a log has a negative line count.
pub proof fn lemma_run_wf(lines: Seq<Seq<char>>)
    ensures
        run(lines).wf(),
    decreases lines.len(),
{
    if lines.len() > 0 {
        lemma_run_wf(lines.drop_last());
        lemma_step_wf(run(lines.drop_last()), lines.last());
    }
}

/// No record of a commit log has a negative line count, whatever the text.
pub proof fn lemma_scan_log_wf(text: Seq<char>)
    ensures
        forall|i: int|
            0 <= i < scan_log(text).commits.len() ==> (#[trigger] scan_log(text).commits[i]).wf(),
{
    lemma_run_wf(trimmed_lines(text));
}

/// The positions of the first four `|` of `line`; `None` where it has fewer.
fn header_bounds(line: &Vec<char>) -> (r: Option<(usize, usize, usize, usize)>)
    ensures
        r is Some <==> header_fields(line@) is Some,
        r matches Some(p) ==> {
            &&& p.0 < p.1 < p.2 < p.3 < line.len()
            &&& header_fields(line@) == Some(
                HeaderFields {
                    hash: line@.subrange(0, p.0 as int),
                    author_name: line@.subrange(p.0 + 1, p.1 as int),
                    author_email: line@.subrange(p.1 + 1, p.2 as int),
                    date: line@.subrange(p.2 + 1, p.3 as int),
                    subject: line@.skip(p.3 + 1),
                },
            )
        },
{
    let n = line.len();
    assert(line@.skip(0) == line@);
    let p0 = cut_at(line, 0, '|');
    if p0 == n {
        return None;
    }
    let p1 = cut_at(line, p0 + 1, '|');
    if p1 == n {
        return None;
    }
    let p2 = cut_at(line, p1 + 1, '|');
    if p2 == n {
        return None;
    }
    let p3 = cut_at(line, p2 + 1, '|');
    if p3 == n {
        return None;
    }
    Some((p0, p1, p2, p3))
}

/// The counts and the path of a stat line; `None` where `line` is none.
fn parse_stat(line: &Vec<char>) -> (r: Option<(i32, i32, String)>)
    ensures
        r is Some <==> stat_fields(line@) is Some,
        r matches Some(t) ==> {
            &&& t.0 == stat_fields(line@)->0.insertions
            &&& t.1 == stat_fields(line@)->0.deletions
            &&& t.2@ == stat_fields(line@)->0.path
            &&& t.0 >= 0
            &&& t.1 >= 0
        },
{
    let n = line.len();
    assert(line@.skip(0) == line@);
    let t0 = cut_at(line, 0, '\t');
    if t0 == n {
        return None;
    }
    let t1 = cut_at(line, t0 + 1, '\t');
    if t1 == n {
        return None;
    }
    let t2 = cut_at(line, t1 + 1, '\t');
    let insertions = parse_count(line, 0, t0);
    let deletions = parse_count(line, t0 + 1, t1);
    let path = string_of(line, t1 + 1, t2);
    proof {
        let rest = line@.skip(t1 + 1);
        assert(rest.take(t2 - (t1 + 1)) == line@.subrange(t1 + 1, t2 as int));
    }
    Some((insertions, deletions, path))
}

/// Whether `line` looks like a header.
fn is_header_like(line: &Vec<char>) -> (r: bool)
    ensures
        r == looks_like_header(line@),
{
    let n = line.len();
    assert(line@.subrange(0, n as int) == line@);
    find_char(line, 0, n, '|') < n && utf8_longer_than(line, 0, n, 40)
}

/// The sum of two line counts, held at the largest `i32`.
fn add_counts(a: i32, b: i32) -> (r: i32)
    requires
        a >= 0,
        b >= 0,
    ensures
        r == saturating_sum(a as int, b as int),
        r >= 0,
{
    if a > i32::MAX - b {
        i32::MAX
    } else {
        a + b
    }
}

/// A scan of a commit log in progress.
struct LogScanner {
    commits: Vec<GitCommit>,
    current: Option<GitCommit>,
    failed: bool,
}

impl View for LogScanner {
    type V = ScanView;

    closed spec fn view(&self) -> ScanView {
        ScanView {
            commits: commits_view(self.commits@),
            current: match self.current {
                Some(c) => Some(c@),
                None => None,
            },
            failed: self.failed,
        }
    }
}

impl LogScanner {
    /// No record of the scan has a negative line count.
    spec fn wf(&self) -> bool {
        &&& forall|i: int| 0 <= i < self.commits.len() ==> (#[trigger] self.commits[i]).wf()
        &&& self.current matches Some(c) ==> c.wf()
    }

    /// A scan that has read nothing yet.
    fn new() -> (r: LogScanner)
        ensures
            r.wf(),
            r@ == scan_start(),
    {
        let r = LogScanner { commits: Vec::new(), current: None, failed: false };
        assert(commits_view(r.commits@) == Seq::<CommitView>::empty());
        r
    }

    /// Ends the stat block that is being read, if there is one.
    fn close(self) -> (r: LogScanner)
        requires
            self.wf(),
        ensures
            r.wf(),
            r@ == close(self@),
            r.current is None,
    {
        let LogScanner { mut commits, current, failed } = self;
        match current {
            Some(c) => {
                assert(commits_view(commits@.push(c)) == commits_view(commits@).push(c@));
                commits.push(c);
                LogScanner { commits, current: None, failed }
            },
            None => LogScanner { commits, current: None, failed },
        }
    }

    /// Reads `line` while no stat block is open.
    fn await_header(self, line: &Vec<char>) -> (r: LogScanner)
        requires
            self.wf(),
            self.current is None,
        ensures
            r.wf(),
            r@ == await_header(self@, line@),
    {
        let bounds = header_bounds(line);
        match bounds {
            None => self,
            Some((p0, p1, p2, p3)) => {
                let date = string_of(line, p2 + 1, p3);
                match Timestamp::parse_civil(date.as_str()) {
                    None => LogScanner { commits: self.commits, current: None, failed: true },
                    Some(commit_date) => {
                        let (a, b) = trim_bounds(line, p3 + 1, line.len());
                        assert(line@.subrange(p3 + 1, line.len() as int) == line@.skip(p3 + 1));
                        let commit = GitCommit {
                            id: None,
                            hash: string_of(line, 0, p0),
                            author_name: string_of(line, p0 + 1, p1),
                            author_email: string_of(line, p1 + 1, p2),
                            commit_date,
                            message: string_of(line, a, b),
                            files_changed: Vec::new(),
                            insertions: 0,
                            deletions: 0,
                        };
                        assert(strings_view(commit.files_changed@) == Seq::<Seq<char>>::empty());
                        LogScanner {
                            commits: self.commits,
                            current: Some(commit),
                            failed: self.failed,
                        }
                    },
                }
            },
        }
    }

    /// Reads one more line, which is given trimmed.
    fn feed(self, line: &Vec<char>) -> (r: LogScanner)
        requires
            self.wf(),
        ensures
            r.wf(),
            r@ == step(self@, line@),
    {
        if self.failed {
            return self;
        }
        if self.current.is_none() {
            return self.await_header(line);
        }
        if line.len() == 0 {
            return self.close();
        }
        if is_header_like(line) {
            return self.close().await_header(line);
        }
        match parse_stat(line) {
            None => self,
            Some((insertions, deletions, path)) => {
                let LogScanner { commits, current, failed } = self;
                let mut c = current.unwrap();
                let ghost before = c@;
                assert(strings_view(c.files_changed@.push(path)) == strings_view(
                    c.files_changed@,
                ).push(path@));
                c.files_changed.push(path);
                c.insertions = add_counts(c.insertions, insertions);
                c.deletions = add_counts(c.deletions, deletions);
                assert(c@ == add_stat(before, stat_fields(line@)->0));
                LogScanner { commits, current: Some(c), failed }
            },
        }
    }
}

/// Reads a commit log up to its end or to the first header whose date cannot be
/// read. Returns the records read until then, and whether the scan stopped at
/// such a header.
pub fn scan_git_log(text: &str) -> (r: (Vec<GitCommit>, bool))
    ensures
        commits_view(r.0@) == scan_log(text@).commits,
        r.1 == scan_log(text@).failed,
        forall|i: int| 0 <= i < r.0.len() ==> (#[trigger] r.0[i]).wf(),
{
    let chars = chars_of(text);
    let lines = split_trimmed_lines(&chars);
    let mut scanner = LogScanner::new();
    let mut i: usize = 0;
    assert(rows_view(lines@).take(0) == Seq::<Seq<char>>::empty());
    while i < lines.len()
        invariant
            i <= lines.len(),
            scanner.wf(),
            scanner@ == run(rows_view(lines@).take(i as int)),
        decreases lines.len() - i,
    {
        proof {
            let next = rows_view(lines@).take(i + 1);
            assert(next.drop_last() == rows_view(lines@).take(i as int));
            assert(next.last() == lines@[i as int]@);
        }
        scanner = scanner.feed(&lines[i]);
        i += 1;
    }
    assert(rows_view(lines@).take(lines.len() as int) == rows_view(lines@));
    let done = scanner.close();
    (done.commits, done.failed)
}

/// Reads a whole commit log. A header whose date cannot be read fails the
/// whole log.
pub fn parse_git_log(text: &str) -> (r: Result<Vec<GitCommit>, ParseError>)
    ensures
        scan_log(text@).failed ==> r == Err::<Vec<GitCommit>, ParseError>(
            ParseError::InvalidDate,
        ),
        !scan_log(text@).failed ==> r is Ok && commits_view(r->Ok_0@) == scan_log(
            text@,
        ).commits,
        r matches Ok(commits) ==> forall|i: int|
            0 <= i < commits.len() ==> (#[trigger] commits[i]).wf(),
{
    let (commits, failed) = scan_git_log(text);
    if failed {
        Err(ParseError::InvalidDate)
    } else {
        Ok(commits)
    }
}

} // verus!
