//! The graph-walk extractor: commit records made from what a repository holds.

use vstd::prelude::*;
use vstd::string::StrSliceExecFns;
use crate::db::{CommitView, GitCommit};
use crate::error::{ParseError, RepositoryError};
use crate::text::{
    begins_with,
    chars_of,
    contains_text,
    cut,
    cut_at,
    find,
    find_char,
    has_char,
    has_text,
    starts_with,
    string_of,
    strip_end,
    strip_suffix_all,
    strings_view,
    trim,
    trim_bounds,
};
use crate::time::{representable, Timestamp};

verus! {

/// What a new issue on the tracker is made of.
#[derive(Debug, Clone)]
pub struct IssueParams {
    pub title: String,
    pub body: String,
    pub labels: Vec<String>,
    pub assignees: Vec<String>,
}

/// What an SSH address of the hosting service begins with.
pub open spec fn ssh_marker() -> Seq<char> {
    "git@github"@
}

/// What any address of the hosting service holds.
pub open spec fn host_marker() -> Seq<char> {
    "github"@
}

/// The ending that a repository address may carry.
pub open spec fn git_suffix() -> Seq<char> {
    ".git"@
}

/// The repository path of an SSH address: what stands between its first and
/// its second colon, without the `.git` endings. `None` where it has no colon.
pub open spec fn ssh_path(url: Seq<char>) -> Option<Seq<char>> {
    match cut(url, ':') {
        None => None,
        Some((_, rest)) => Some(strip_suffix_all(rest.take(find(rest, ':')), git_suffix())),
    }
}

/// The two segments of a path with exactly one slash, neither of them empty.
pub open spec fn two_segments(path: Seq<char>) -> Option<(Seq<char>, Seq<char>)> {
    match cut(path, '/') {
        None => None,
        Some((owner, project)) => if has_char(project, '/') || owner.len() == 0 || project.len()
            == 0 {
            None
        } else {
            Some((owner, project))
        },
    }
}

/// An address without its scheme: what follows the `://` that its first colon
/// begins, and all of the address where its first colon begins none.
pub open spec fn without_scheme(url: Seq<char>) -> Seq<char> {
    let colon = find(url, ':');
    if colon + 2 < url.len() && url[colon + 1] == '/' && url[colon + 2] == '/' {
        url.skip(colon + 3)
    } else {
        url
    }
}

/// The repository path of an HTTPS address: what follows the first slash
/// after the scheme, which ends the host, without the `.git` endings. `None`
/// where no slash follows the host.
pub open spec fn https_path(url: Seq<char>) -> Option<Seq<char>> {
    match cut(without_scheme(url), '/') {
        None => None,
        Some((_, path)) => Some(strip_suffix_all(path, git_suffix())),
    }
}

/// The owner and the project that a repository path names: its two segments,
/// and an error for a path of fewer or more segments or with an empty one.
pub open spec fn path_repo(path: Seq<char>) -> Result<(Seq<char>, Seq<char>), ParseError> {
    match two_segments(path) {
        None => Err(ParseError::InvalidRepositoryPath),
        Some(pair) => Ok(pair),
    }
}

/// The owner and the project that a remote address names, or why it names
/// none. In both forms the repository path must be made of exactly two
/// segments, so the host is never taken for the owner.
pub open spec fn github_repo(url: Seq<char>) -> Result<(Seq<char>, Seq<char>), ParseError> {
    if starts_with(url, ssh_marker()) {
        match ssh_path(url) {
            None => Err(ParseError::InvalidSshUrl),
            Some(path) => path_repo(path),
        }
    } else if has_text(url, host_marker()) {
        match https_path(url) {
            None => Err(ParseError::InvalidHttpsUrl),
            Some(path) => path_repo(path),
        }
    } else {
        Err(ParseError::UnknownHost)
    }
}

/// The owner and the project that the repository path `chars[from..to]` names.
fn read_segments(chars: &Vec<char>, from: usize, to: usize) -> (r: Result<
    (String, String),
    ParseError,
>)
    requires
        from <= to <= chars.len(),
    ensures
        match path_repo(chars@.subrange(from as int, to as int)) {
            Ok((owner, project)) => r matches Ok(pair) && pair.0@ == owner && pair.1@ == project,
            Err(e) => r == Err::<(String, String), ParseError>(e),
        },
{
    let ghost path = chars@.subrange(from as int, to as int);
    let s1 = find_char(chars, from, to, '/');
    if s1 == to {
        return Err(ParseError::InvalidRepositoryPath);
    }
    let s2 = find_char(chars, s1 + 1, to, '/');
    proof {
        assert(path.take(s1 - from) == chars@.subrange(from as int, s1 as int));
        assert(path.skip(s1 - from + 1) == chars@.subrange(s1 + 1, to as int));
    }
    if s2 < to || s1 == from || s1 + 1 == to {
        return Err(ParseError::InvalidRepositoryPath);
    }
    Ok((string_of(chars, from, s1), string_of(chars, s1 + 1, to)))
}

/// Reads the owner and the project from the address of a remote, in its SSH
/// form `git@host:owner/project.git` or its HTTPS form
/// `https://host/owner/project.git`.
pub fn parse_github_url(url: &str) -> (r: Result<(String, String), ParseError>)
    ensures
        match github_repo(url@) {
            Ok((owner, project)) => r matches Ok(pair) && pair.0@ == owner && pair.1@ == project,
            Err(e) => r == Err::<(String, String), ParseError>(e),
        },
{
    let chars = chars_of(url);
    let n = chars.len();
    let suffix = chars_of(".git");
    let ssh = chars_of("git@github");
    let host = chars_of("github");
    assert(chars@.skip(0) == chars@);
    if begins_with(&chars, &ssh) {
        let c1 = cut_at(&chars, 0, ':');
        if c1 == n {
            return Err(ParseError::InvalidSshUrl);
        }
        let c2 = cut_at(&chars, c1 + 1, ':');
        let e = strip_end(&chars, c1 + 1, c2, &suffix);
        proof {
            let rest = chars@.skip(c1 + 1);
            assert(rest.take(c2 - (c1 + 1)) == chars@.subrange(c1 + 1, c2 as int));
            assert(ssh_path(url@) == Some(chars@.subrange(c1 + 1, e as int)));
        }
        read_segments(&chars, c1 + 1, e)
    } else if contains_text(&chars, &host) {
        let colon = cut_at(&chars, 0, ':');
        let start: usize = if n >= 3 && colon < n - 2 && chars[colon + 1] == '/' && chars[colon
            + 2] == '/' {
            colon + 3
        } else {
            0
        };
        assert(without_scheme(url@) == chars@.skip(start as int));
        let slash = cut_at(&chars, start, '/');
        if slash == n {
            return Err(ParseError::InvalidHttpsUrl);
        }
        let e = strip_end(&chars, slash + 1, n, &suffix);
        proof {
            assert(chars@.skip(slash + 1) == chars@.subrange(slash + 1, n as int));
            assert(https_path(url@) == Some(chars@.subrange(slash + 1, e as int)));
        }
        read_segments(&chars, slash + 1, e)
    } else {
        Err(ParseError::UnknownHost)
    }
}

/// One commit of the history, as the graph walk yields it.
#[derive(Debug, Clone)]
pub struct CommitInfo {
    pub hash: String,
    pub author_name: String,
    pub author_email: String,
    pub commit_date: Timestamp,
    pub message: String,
    pub files_changed: Vec<String>,
    pub insertions: i32,
    pub deletions: i32,
}

impl View for CommitInfo {
    type V = CommitView;

    open spec fn view(&self) -> CommitView {
        CommitView {
            id: None,
            hash: self.hash@,
            author_name: self.author_name@,
            author_email: self.author_email@,
            commit_date: self.commit_date,
            message: self.message@,
            files_changed: strings_view(self.files_changed@),
            insertions: self.insertions as int,
            deletions: self.deletions as int,
        }
    }
}

impl CommitInfo {
    /// Neither line count is negative.
    pub open spec fn wf(&self) -> bool {
        self@.wf()
    }
}

/// What a commit record says of each commit of a list, in order.
pub open spec fn infos_view(v: Seq<CommitInfo>) -> Seq<CommitView> {
    Seq::new(v.len(), |i: int| v[i]@)
}

/// What the repository holds of one commit: its identifier, its author
/// signature, its message, and its diff against its first parent (against the
/// empty tree where it has none). A text that is not valid UTF-8 is absent.
#[derive(Debug, Clone)]
pub struct RawCommit {
    /// The identifier in hexadecimal.
    pub id: String,
    pub author_name: Option<String>,
    pub author_email: Option<String>,
    /// The author time in seconds since the start of 1970, in UTC.
    pub author_seconds: i64,
    /// The author's offset from UTC in minutes. The seconds count from UTC
    /// already, so the offset moves nothing.
    pub author_offset_minutes: i32,
    pub message: Option<String>,
    /// The new path of each changed entry, in the order of the diff.
    pub changed_paths: Vec<Option<String>>,
    /// The origin marker of each content line of the diff, in order.
    pub line_origins: Vec<char>,
}

/// The text of `o`, or `default` where it is absent.
pub open spec fn text_or(o: Option<String>, default: Seq<char>) -> Seq<char> {
    match o {
        Some(s) => s@,
        None => default,
    }
}

/// The paths of `paths` that are there, in order.
pub open spec fn known_paths(paths: Seq<Option<String>>) -> Seq<Seq<char>>
    decreases paths.len(),
{
    if paths.len() == 0 {
        Seq::empty()
    } else {
        let front = known_paths(paths.drop_last());
        match paths.last() {
            Some(p) => front.push(p@),
            None => front,
        }
    }
}

/// How many of `origins` are `mark`.
pub open spec fn count_origin(origins: Seq<char>, mark: char) -> int
    decreases origins.len(),
{
    if origins.len() == 0 {
        0
    } else {
        count_origin(origins.drop_last(), mark) + if origins.last() == mark {
            1int
        } else {
            0int
        }
    }
}

/// A count of lines, held at the largest `i32`.
pub open spec fn capped(n: int) -> int {
    if n > i32::MAX {
        i32::MAX as int
    } else {
        n
    }
}

/// The commit record of `raw`: an addition counts as an insertion, a deletion
/// as a deletion, and every other line of the diff as nothing. An author time
/// outside the range of dates makes no record.
pub open spec fn record_of(raw: RawCommit) -> Result<CommitView, RepositoryError> {
    if !representable(raw.author_seconds, 0) {
        Err(RepositoryError::InvalidTimestamp)
    } else {
        Ok(
            CommitView {
                id: None,
                hash: raw.id@,
                author_name: text_or(raw.author_name, "Unknown"@),
                author_email: text_or(raw.author_email, "unknown@example.com"@),
                commit_date: Timestamp { secs: raw.author_seconds, nanos: 0 },
                message: trim(text_or(raw.message, "No message"@)),
                files_changed: known_paths(raw.changed_paths@),
                insertions: capped(count_origin(raw.line_origins@, '+')),
                deletions: capped(count_origin(raw.line_origins@, '-')),
            },
        )
    }
}

/// No count of a mark is negative or larger than the number of lines.
pub proof fn lemma_count_bounds(origins: Seq<char>, mark: char)
    ensures
        0 <= count_origin(origins, mark) <= origins.len(),
    decreases origins.len(),
{
    if origins.len() > 0 {
        lemma_count_bounds(origins.drop_last(), mark);
    }
}

/// No record that is made of a commit of the repository has a negative line
/// count.
pub proof fn lemma_record_wf(raw: RawCommit)
    ensures
        record_of(raw) matches Ok(record) ==> record.wf(),
{
    lemma_count_bounds(raw.line_origins@, '+');
    lemma_count_bounds(raw.line_origins@, '-');
}

/// A commit whose diff holds nothing but additions, as that of a commit
/// without parent against the empty tree does, has a record as soon as its
/// author time is one that `chrono` has a date for. The record counts every
/// line of the diff as an insertion, up to the largest count, and no deletion.
pub proof fn lemma_root_record(raw: RawCommit)
    requires
        forall|i: int| 0 <= i < raw.line_origins@.len() ==> raw.line_origins@[i] == '+',
    ensures
        -8_334_601_228_800 <= raw.author_seconds <= 8_210_266_876_799 ==> record_of(raw) is Ok,
        record_of(raw) matches Ok(record) ==> record.insertions == capped(
            raw.line_origins@.len() as int,
        ) && record.deletions == 0,
        record_of(raw) matches Ok(record) ==> (raw.line_origins@.len() <= i32::MAX
            ==> record.insertions == raw.line_origins@.len()),
{
    lemma_additions_only(raw.line_origins@);
}

/// A diff in which every line is an addition, as that of a commit without
/// parent against the empty tree, has as many insertions as lines and no
/// deletion.
pub proof fn lemma_additions_only(origins: Seq<char>)
    requires
        forall|i: int| 0 <= i < origins.len() ==> origins[i] == '+',
    ensures
        count_origin(origins, '+') == origins.len(),
        count_origin(origins, '-') == 0,
    decreases origins.len(),
{
    if origins.len() > 0 {
        let front = origins.drop_last();
        assert forall|i: int| 0 <= i < front.len() implies front[i] == '+' by {
            assert(front[i] == origins[i]);
        }
        lemma_additions_only(front);
    }
}

/// How many of `origins` are `mark`, held at the largest `i32`.
fn count_lines(origins: &Vec<char>, mark: char) -> (r: i32)
    ensures
        r == capped(count_origin(origins@, mark)),
        r >= 0,
{
    let mut count: usize = 0;
    let mut i: usize = 0;
    while i < origins.len()
        invariant
            i <= origins.len(),
            count == count_origin(origins@.take(i as int), mark),
            count <= i,
        decreases origins.len() - i,
    {
        proof {
            let next = origins@.take(i + 1);
            assert(next.drop_last() == origins@.take(i as int));
            assert(next.last() == origins@[i as int]);
        }
        if origins[i] == mark {
            count += 1;
        }
        i += 1;
    }
    assert(origins@.take(origins.len() as int) == origins@);
    if count > 2147483647 {
        2147483647
    } else {
        count as i32
    }
}

/// The paths of `paths` that are there, in order.
fn collect_paths(paths: Vec<Option<String>>) -> (r: Vec<String>)
    ensures
        strings_view(r@) == known_paths(paths@),
{
    let mut r: Vec<String> = Vec::new();
    let mut i: usize = 0;
    assert(paths@.take(0) == Seq::<Option<String>>::empty());
    while i < paths.len()
        invariant
            i <= paths.len(),
            strings_view(r@) == known_paths(paths@.take(i as int)),
        decreases paths.len() - i,
    {
        proof {
            let next = paths@.take(i + 1);
            assert(next.drop_last() == paths@.take(i as int));
            assert(next.last() == paths@[i as int]);
        }
        match &paths[i] {
            Some(p) => {
                let copy = p.clone();
                assert(strings_view(r@.push(copy)) == strings_view(r@).push(copy@));
                r.push(copy);
            },
            None => {},
        }
        i += 1;
    }
    assert(paths@.take(paths.len() as int) == paths@);
    r
}

/// The text of `o` or of `default`, without the white space at its two ends
/// where `trimmed` is set.
fn text_or_default(o: Option<String>, default: &str, trimmed: bool) -> (r: String)
    ensures
        r@ == if trimmed {
            trim(text_or(o, default@))
        } else {
            text_or(o, default@)
        },
{
    let text = match o {
        Some(s) => s,
        None => default.to_owned(),
    };
    if trimmed {
        let chars = chars_of(text.as_str());
        let (a, b) = trim_bounds(&chars, 0, chars.len());
        assert(chars@.subrange(0, chars.len() as int) == chars@);
        string_of(&chars, a, b)
    } else {
        text
    }
}

impl CommitInfo {
    /// The record as the ingestion coordinator takes it: the same values, and
    /// no key of the store yet.
    pub fn into_record(self) -> (r: GitCommit)
        ensures
            r@ == self@,
    {
        GitCommit {
            id: None,
            hash: self.hash,
            author_name: self.author_name,
            author_email: self.author_email,
            commit_date: self.commit_date,
            message: self.message,
            files_changed: self.files_changed,
            insertions: self.insertions,
            deletions: self.deletions,
        }
    }

    /// Makes the commit record of what the repository holds of a commit.
    pub fn from_raw(raw: RawCommit) -> (r: Result<CommitInfo, RepositoryError>)
        ensures
            match record_of(raw) {
                Ok(record) => r matches Ok(info) && info@ == record && info.wf(),
                Err(e) => r == Err::<CommitInfo, RepositoryError>(e),
            },
    {
        let commit_date = match Timestamp::from_seconds(raw.author_seconds) {
            Some(date) => date,
            None => {
                return Err(RepositoryError::InvalidTimestamp);
            },
        };
        let insertions = count_lines(&raw.line_origins, '+');
        let deletions = count_lines(&raw.line_origins, '-');
        Ok(
            CommitInfo {
                hash: raw.id,
                author_name: text_or_default(raw.author_name, "Unknown", false),
                author_email: text_or_default(raw.author_email, "unknown@example.com", false),
                commit_date,
                message: text_or_default(raw.message, "No message", true),
                files_changed: collect_paths(raw.changed_paths),
                insertions,
                deletions,
            },
        )
    }
}

/// Whether `c` is a hexadecimal digit, in either case.
pub open spec fn is_hex_digit(c: char) -> bool {
    let n = c as u32;
    (0x30 <= n <= 0x39) || (0x41 <= n <= 0x46) || (0x61 <= n <= 0x66)
}

/// Whether every character of `s` is a hexadecimal digit.
pub open spec fn all_hex(s: Seq<char>) -> bool {
    forall|i: int| 0 <= i < s.len() ==> is_hex_digit(#[trigger] s[i])
}

/// Whether `s` has the form of a full commit identifier: forty hexadecimal
/// digits.
pub open spec fn is_commit_hash(s: Seq<char>) -> bool {
    s.len() == 40 && all_hex(s)
}

/// `git2::Oid::from_str`, asked only whether it takes the text. It takes one
/// to forty hexadecimal digits, and nothing else.
#[verifier::external_body]
fn oid_accepts(text: &str) -> (r: bool)
    ensures
        r == (0 < text@.len() <= 40 && all_hex(text@)),
{
    git2::Oid::from_str(text).is_ok()
}

/// Checks the form of a commit identifier before the repository is asked for
/// the commit. An abbreviated identifier does not pass.
pub fn check_commit_hash(hash: &str) -> (r: Result<(), ParseError>)
    ensures
        is_commit_hash(hash@) ==> r == Ok::<(), ParseError>(()),
        !is_commit_hash(hash@) ==> r == Err::<(), ParseError>(ParseError::InvalidHash),
{
    let accepted = oid_accepts(hash);
    if accepted && hash.unicode_len() == 40 {
        Ok(())
    } else {
        Err(ParseError::InvalidHash)
    }
}

/// What a lookup returns once the repository has answered: `found` is the
/// commit under the identifier, or `None` where the repository has none. A
/// commit that is not there is no error.
pub fn found_commit(found: Option<RawCommit>) -> (r: Result<Option<CommitInfo>, RepositoryError>)
    ensures
        match found {
            None => r == Ok::<Option<CommitInfo>, RepositoryError>(None),
            Some(raw) => match record_of(raw) {
                Ok(record) => r matches Ok(Some(info)) && info@ == record && info.wf(),
                Err(e) => r == Err::<Option<CommitInfo>, RepositoryError>(e),
            },
        },
{
    match found {
        None => Ok(None),
        Some(raw) => match CommitInfo::from_raw(raw) {
            Ok(info) => Ok(Some(info)),
            Err(e) => Err(e),
        },
    }
}

/// A walk over the history in progress: the most commits it is to yield, if
/// there is a limit, and the records of the commits visited so far.
pub struct CommitWalk {
    pub limit: Option<usize>,
    pub commits: Vec<CommitInfo>,
}

impl CommitWalk {
    /// Whether the walk may take one more commit.
    pub open spec fn open(&self) -> bool {
        match self.limit {
            Some(limit) => self.commits.len() < limit,
            None => true,
        }
    }

    /// Starts a walk at the head of the repository. A head that cannot be
    /// resolved, as in a repository without commits, fails the walk before
    /// its first step.
    pub fn start(head_resolved: bool, limit: Option<usize>) -> (r: Result<
        CommitWalk,
        RepositoryError,
    >)
        ensures
            !head_resolved ==> r is Err && r->Err_0 == RepositoryError::Unresolved,
            head_resolved ==> r is Ok && r->Ok_0.limit == limit && r->Ok_0.commits@.len() == 0,
    {
        if head_resolved {
            Ok(CommitWalk { limit, commits: Vec::new() })
        } else {
            Err(RepositoryError::Unresolved)
        }
    }

    /// Whether the walk is to visit one more commit. Where it is not, the
    /// walk ends without error.
    pub fn wants_more(&self) -> (r: bool)
        ensures
            r == self.open(),
    {
        match self.limit {
            Some(limit) => self.commits.len() < limit,
            None => true,
        }
    }

    /// Takes what the repository yields for the next commit of the walk:
    /// the commit, or `None` where one of its objects cannot be read. An
    /// unreadable commit and a commit that makes no record fail and leave the
    /// records as they are; whatever comes beyond the limit is left out.
    pub fn accept(&mut self, visited: Option<RawCommit>) -> (r: Result<(), RepositoryError>)
        ensures
            final(self).limit == old(self).limit,
            !old(self).open() ==> r is Ok && final(self).commits == old(self).commits,
            old(self).open() ==> match visited {
                None => r == Err::<(), RepositoryError>(RepositoryError::Unresolved) && final(self).commits == old(self).commits,
                Some(raw) => match record_of(raw) {
                    Ok(record) => r is Ok && record.wf() && infos_view(final(self).commits@)
                        == infos_view(old(self).commits@).push(record),
                    Err(e) => r == Err::<(), RepositoryError>(e) && final(self).commits == old(self).commits,
                },
            },
    {
        if !self.wants_more() {
            return Ok(());
        }
        let raw = match visited {
            Some(raw) => raw,
            None => {
                return Err(RepositoryError::Unresolved);
            },
        };
        match CommitInfo::from_raw(raw) {
            Ok(info) => {
                assert(infos_view(self.commits@.push(info)) == infos_view(self.commits@).push(
                    info@,
                ));
                self.commits.push(info);
                Ok(())
            },
            Err(e) => Err(e),
        }
    }

    /// Ends the walk and hands out its records, in the order of the visits.
    pub fn finish(self) -> (r: Vec<CommitInfo>)
        ensures
            r == self.commits,
    {
        self.commits
    }
}

} // verus!
