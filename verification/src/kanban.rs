//! The task board: columns of issue cards.

use vstd::prelude::*;
use vstd::string::StrSliceExecFns;
use crate::text::{
    chars_of,
    clone_optional,
    clone_strings,
    contains_text,
    has_text,
    optional_view,
    same_text,
    strings_view,
};
use crate::time::Timestamp;

verus! {

/// How urgent the issue of a card is.
#[derive(Debug, Clone, Copy, PartialEq, Eq, Structural)]
pub enum Priority {
    Low,
    Medium,
    High,
    Critical,
}

impl Default for Priority {
    fn default() -> (r: Priority)
        ensures
            r == Priority::Medium,
    {
        Priority::Medium
    }
}

/// An issue of the remote tracker, as far as the board reads it.
#[derive(Debug, Clone)]
pub struct RemoteIssue {
    pub number: u64,
    pub title: String,
    pub body: Option<String>,
    /// The login of the assignee.
    pub assignee: Option<String>,
    /// The names of the labels.
    pub labels: Vec<String>,
    pub created_at: Timestamp,
    pub updated_at: Timestamp,
    pub comments: u32,
}

/// One issue on the board.
#[derive(Debug, Clone)]
pub struct KanbanCard {
    pub issue_number: u64,
    pub title: String,
    pub body: Option<String>,
    pub assignee: Option<String>,
    pub labels: Vec<String>,
    pub priority: Priority,
    pub created_at: Timestamp,
    pub updated_at: Timestamp,
    pub comments_count: u32,
}

/// What a card says, as mathematical values.
pub struct CardView {
    pub issue_number: u64,
    pub title: Seq<char>,
    pub body: Option<Seq<char>>,
    pub assignee: Option<Seq<char>>,
    pub labels: Seq<Seq<char>>,
    pub priority: Priority,
    pub created_at: Timestamp,
    pub updated_at: Timestamp,
    pub comments_count: u32,
}

impl View for KanbanCard {
    type V = CardView;

    open spec fn view(&self) -> CardView {
        CardView {
            issue_number: self.issue_number,
            title: self.title@,
            body: optional_view(self.body),
            assignee: optional_view(self.assignee),
            labels: strings_view(self.labels@),
            priority: self.priority,
            created_at: self.created_at,
            updated_at: self.updated_at,
            comments_count: self.comments_count,
        }
    }
}

/// What the cards of a list say, in order.
pub open spec fn cards_view(cards: Seq<KanbanCard>) -> Seq<CardView> {
    Seq::new(cards.len(), |i: int| cards[i]@)
}

/// Whether one of `labels` holds `a` or `b`.
pub open spec fn some_label_has(labels: Seq<Seq<char>>, a: Seq<char>, b: Seq<char>) -> bool {
    exists|i: int|
        0 <= i < labels.len() && (has_text(#[trigger] labels[i], a) || has_text(labels[i], b))
}

/// The priority that labels give: the most urgent one that a label names, in
/// lower case or capitalised, and medium where no label names one.
pub open spec fn label_priority(labels: Seq<Seq<char>>) -> Priority {
    if some_label_has(labels, "critical"@, "Critical"@) {
        Priority::Critical
    } else if some_label_has(labels, "high"@, "High"@) {
        Priority::High
    } else if some_label_has(labels, "low"@, "Low"@) {
        Priority::Low
    } else {
        Priority::Medium
    }
}

/// Whether one of `labels` holds `a` or `b`.
fn any_label_has(labels: &Vec<String>, a: &str, b: &str) -> (r: bool)
    ensures
        r == some_label_has(strings_view(labels@), a@, b@),
{
    let x = chars_of(a);
    let y = chars_of(b);
    let mut i: usize = 0;
    while i < labels.len()
        invariant
            i <= labels.len(),
            x@ == a@,
            y@ == b@,
            forall|k: int|
                0 <= k < i ==> !has_text(#[trigger] strings_view(labels@)[k], a@) && !has_text(
                    strings_view(labels@)[k],
                    b@,
                ),
        decreases labels.len() - i,
    {
        let label = chars_of(labels[i].as_str());
        assert(strings_view(labels@)[i as int] == label@);
        if contains_text(&label, &x) || contains_text(&label, &y) {
            return true;
        }
        i += 1;
    }
    false
}

/// The priority that `labels` give.
pub fn priority_of_labels(labels: &Vec<String>) -> (r: Priority)
    ensures
        r == label_priority(strings_view(labels@)),
{
    if any_label_has(labels, "critical", "Critical") {
        Priority::Critical
    } else if any_label_has(labels, "high", "High") {
        Priority::High
    } else if any_label_has(labels, "low", "Low") {
        Priority::Low
    } else {
        Priority::Medium
    }
}

/// The card of `issue`, with medium priority.
pub open spec fn plain_card(issue: RemoteIssue) -> CardView {
    CardView {
        issue_number: issue.number,
        title: issue.title@,
        body: optional_view(issue.body),
        assignee: optional_view(issue.assignee),
        labels: strings_view(issue.labels@),
        priority: Priority::Medium,
        created_at: issue.created_at,
        updated_at: issue.updated_at,
        comments_count: issue.comments,
    }
}

/// The card of `issue`, with the priority that its labels give.
pub open spec fn card_of(issue: RemoteIssue) -> CardView {
    CardView { priority: label_priority(strings_view(issue.labels@)), ..plain_card(issue) }
}

impl KanbanCard {
    /// The card of an issue of the remote tracker. Its priority is medium
    /// until `set_priority_from_labels` reads the labels.
    pub fn from_github_issue(issue: &RemoteIssue) -> (r: KanbanCard)
        ensures
            r@ == plain_card(*issue),
    {
        KanbanCard {
            issue_number: issue.number,
            title: issue.title.clone(),
            body: clone_optional(&issue.body),
            assignee: clone_optional(&issue.assignee),
            labels: clone_strings(&issue.labels),
            priority: Priority::default(),
            created_at: issue.created_at,
            updated_at: issue.updated_at,
            comments_count: issue.comments,
        }
    }

    /// Sets the priority to the one that the labels give.
    pub fn set_priority_from_labels(&mut self)
        ensures
            final(self)@ == (CardView { priority: label_priority(old(self)@.labels), ..old(self)@ }),
    {
        self.priority = priority_of_labels(&self.labels);
    }
}

/// The position of the first item of `s` that meets `p`, or the length of `s`
/// where none does.
pub open spec fn first_index<T>(s: Seq<T>, p: spec_fn(T) -> bool) -> int
    decreases s.len(),
{
    if s.len() == 0 || p(s[0]) {
        0
    } else {
        1 + first_index(s.drop_first(), p)
    }
}

/// `k` is `first_index(s, p)` as soon as nothing before `k` meets `p` and `k`
/// is the end of `s` or meets `p`.
pub proof fn lemma_first_index<T>(s: Seq<T>, p: spec_fn(T) -> bool, k: int)
    requires
        0 <= k <= s.len(),
        forall|i: int| 0 <= i < k ==> !p(#[trigger] s[i]),
        k == s.len() || p(s[k]),
    ensures
        first_index(s, p) == k,
    decreases k,
{
    if k > 0 {
        let t = s.drop_first();
        assert(!p(s[0]));
        assert forall|i: int| 0 <= i < k - 1 implies !p(#[trigger] t[i]) by {
            assert(t[i] == s[i + 1]);
        }
        lemma_first_index(t, p, k - 1);
    }
}

/// One column of the board.
#[derive(Debug, Clone)]
pub struct KanbanColumn {
    pub id: String,
    pub title: String,
    /// The label of the tracker that puts an issue into this column.
    pub label_name: String,
    pub cards: Vec<KanbanCard>,
    /// The colour of the column, as CSS writes it.
    pub color: String,
}

/// What a column says, as mathematical values.
pub struct ColumnView {
    pub id: Seq<char>,
    pub title: Seq<char>,
    pub label_name: Seq<char>,
    pub cards: Seq<CardView>,
    pub color: Seq<char>,
}

impl View for KanbanColumn {
    type V = ColumnView;

    open spec fn view(&self) -> ColumnView {
        ColumnView {
            id: self.id@,
            title: self.title@,
            label_name: self.label_name@,
            cards: cards_view(self.cards@),
            color: self.color@,
        }
    }
}

/// What the columns of a list say, in order.
pub open spec fn columns_view(columns: Seq<KanbanColumn>) -> Seq<ColumnView> {
    Seq::new(columns.len(), |i: int| columns[i]@)
}

/// A column without cards.
pub open spec fn empty_column(
    id: Seq<char>,
    title: Seq<char>,
    label_name: Seq<char>,
    color: Seq<char>,
) -> ColumnView {
    ColumnView { id, title, label_name, cards: Seq::empty(), color }
}

/// The column `column` with `card` added at its end.
pub open spec fn with_card(column: ColumnView, card: CardView) -> ColumnView {
    ColumnView { cards: column.cards.push(card), ..column }
}

/// The position in `cards` of the first card of the issue `issue_number`, or
/// the length of `cards` where there is none.
pub open spec fn card_position(cards: Seq<CardView>, issue_number: u64) -> int {
    first_index(cards, |c: CardView| c.issue_number == issue_number)
}

impl KanbanColumn {
    /// A column without cards.
    pub fn new(id: String, title: String, label_name: String, color: String) -> (r: KanbanColumn)
        ensures
            r@ == empty_column(id@, title@, label_name@, color@),
    {
        let r = KanbanColumn { id, title, label_name, cards: Vec::new(), color };
        assert(cards_view(r.cards@) == Seq::<CardView>::empty());
        r
    }

    /// Adds `card` at the end of the column.
    pub fn add_card(&mut self, card: KanbanCard)
        ensures
            final(self)@ == with_card(old(self)@, card@),
    {
        assert(cards_view(self.cards@.push(card)) == cards_view(self.cards@).push(card@));
        self.cards.push(card);
    }

    /// Takes the first card of the issue `issue_number` out of the column and
    /// hands it out; `None`, and the column unchanged, where it has none.
    pub fn remove_card(&mut self, issue_number: u64) -> (r: Option<KanbanCard>)
        ensures
            ({
                let k = card_position(old(self)@.cards, issue_number);
                if k < old(self)@.cards.len() {
                    r matches Some(card) && card@ == old(self)@.cards[k] && final(self)@ == (
                    ColumnView { cards: old(self)@.cards.remove(k), ..old(self)@ })
                } else {
                    r is None && final(self)@ == old(self)@
                }
            }),
    {
        let ghost p = |c: CardView| c.issue_number == issue_number;
        let mut i: usize = 0;
        while i < self.cards.len() && self.cards[i].issue_number != issue_number
            invariant
                i <= self.cards.len(),
                *self == *old(self),
                forall|j: int|
                    0 <= j < i ==> (#[trigger] cards_view(self.cards@)[j]).issue_number
                        != issue_number,
            decreases self.cards.len() - i,
        {
            assert(cards_view(self.cards@)[i as int] == self.cards@[i as int]@);
            i += 1;
        }
        proof {
            if i < self.cards.len() {
                assert(cards_view(self.cards@)[i as int] == self.cards@[i as int]@);
            }
            lemma_first_index(cards_view(self.cards@), p, i as int);
        }
        if i < self.cards.len() {
            let ghost before = self.cards@;
            let card = self.cards.remove(i);
            assert(cards_view(before.remove(i as int)) == cards_view(before).remove(i as int));
            Some(card)
        } else {
            None
        }
    }
}

/// A board of columns.
#[derive(Debug, Clone)]
pub struct KanbanBoard {
    pub columns: Vec<KanbanColumn>,
    pub title: String,
    pub last_updated: Timestamp,
}

/// The four columns of a new board: three workflow columns, each fed by the
/// label of its name, and the backlog for everything else.
pub open spec fn default_columns() -> Seq<ColumnView> {
    seq![
        empty_column("preparing"@, "Preparing"@, "Preparing"@, "#fef3c7"@),
        empty_column("progressing"@, "Progressing"@, "Progressing"@, "#bfdbfe"@),
        empty_column("done"@, "Done"@, "Done"@, "#bbf7d0"@),
        empty_column("backlog"@, "Backlog"@, ""@, "#f3f4f6"@),
    ]
}

/// The number of cards in all of `columns`.
pub open spec fn card_total(columns: Seq<ColumnView>) -> nat
    decreases columns.len(),
{
    if columns.len() == 0 {
        0
    } else {
        card_total(columns.drop_last()) + columns.last().cards.len()
    }
}

/// The first columns of a board hold no more cards than all of them.
pub proof fn lemma_card_total_prefix(columns: Seq<ColumnView>, k: int)
    requires
        0 <= k <= columns.len(),
    ensures
        card_total(columns.take(k)) <= card_total(columns),
    decreases columns.len() - k,
{
    if k == columns.len() {
        assert(columns.take(k) == columns);
    } else {
        lemma_card_total_prefix(columns.drop_last(), k);
        assert(columns.drop_last().take(k) == columns.take(k));
    }
}

/// Whether `column` is a workflow column that takes an issue with `labels`:
/// it is not the backlog, and one of the labels is the label of the column.
pub open spec fn takes_labels(column: ColumnView, labels: Seq<Seq<char>>) -> bool {
    column.id != "backlog"@ && column.label_name.len() > 0 && labels.contains(column.label_name)
}

/// The position of the column into which a card with `labels` goes: the first
/// workflow column that takes the labels, else the first backlog column, else
/// the number of columns.
pub open spec fn target_column(columns: Seq<ColumnView>, labels: Seq<Seq<char>>) -> int {
    let workflow = first_index(columns, |c: ColumnView| takes_labels(c, labels));
    if workflow < columns.len() {
        workflow
    } else {
        first_index(columns, |c: ColumnView| c.id == "backlog"@)
    }
}

/// The columns after `card` is put into its column. A card for which there is
/// no column is left out.
pub open spec fn place(columns: Seq<ColumnView>, card: CardView) -> Seq<ColumnView> {
    let k = target_column(columns, card.labels);
    if 0 <= k < columns.len() {
        columns.update(k, with_card(columns[k], card))
    } else {
        columns
    }
}

/// The columns after the card of each of `issues` is put into its column, in
/// order.
pub open spec fn place_all(columns: Seq<ColumnView>, issues: Seq<RemoteIssue>) -> Seq<ColumnView>
    decreases issues.len(),
{
    if issues.len() == 0 {
        columns
    } else {
        place(place_all(columns, issues.drop_last()), card_of(issues.last()))
    }
}

/// Whether one of `labels` is `name`.
pub fn has_label(labels: &Vec<String>, name: &str) -> (r: bool)
    ensures
        r == strings_view(labels@).contains(name@),
{
    let mut i: usize = 0;
    while i < labels.len()
        invariant
            i <= labels.len(),
            forall|k: int| 0 <= k < i ==> strings_view(labels@)[k] != name@,
        decreases labels.len() - i,
    {
        if same_text(labels[i].as_str(), name) {
            assert(strings_view(labels@)[i as int] == name@);
            return true;
        }
        i += 1;
    }
    false
}

/// The position of the column into which a card with `labels` goes.
fn find_target(columns: &Vec<KanbanColumn>, labels: &Vec<String>) -> (k: usize)
    ensures
        k == target_column(columns_view(columns@), strings_view(labels@)),
        k <= columns.len(),
{
    let ghost cols = columns_view(columns@);
    let ghost names = strings_view(labels@);
    let mut i: usize = 0;
    while i < columns.len()
        invariant
            i <= columns.len(),
            cols == columns_view(columns@),
            names == strings_view(labels@),
            forall|j: int| 0 <= j < i ==> !takes_labels(#[trigger] cols[j], names),
        decreases columns.len() - i,
    {
        let column = &columns[i];
        assert(cols[i as int] == column@);
        if !same_text(column.id.as_str(), "backlog") && column.label_name.as_str().unicode_len()
            > 0 && has_label(labels, column.label_name.as_str()) {
            proof {
                lemma_first_index(cols, |c: ColumnView| takes_labels(c, names), i as int);
            }
            return i;
        }
        i += 1;
    }
    proof {
        lemma_first_index(cols, |c: ColumnView| takes_labels(c, names), i as int);
    }
    let mut b: usize = 0;
    while b < columns.len() && !same_text(columns[b].id.as_str(), "backlog")
        invariant
            b <= columns.len(),
            cols == columns_view(columns@),
            forall|j: int| 0 <= j < b ==> (#[trigger] cols[j]).id != "backlog"@,
        decreases columns.len() - b,
    {
        assert(cols[b as int] == columns@[b as int]@);
        b += 1;
    }
    proof {
        if b < columns.len() {
            assert(cols[b as int] == columns@[b as int]@);
        }
        lemma_first_index(cols, |c: ColumnView| c.id == "backlog"@, b as int);
    }
    b
}

/// Puts `card` into its column.
pub fn place_card(columns: &mut Vec<KanbanColumn>, card: KanbanCard)
    ensures
        columns_view(final(columns)@) == place(columns_view(old(columns)@), card@),
{
    let k = find_target(columns, &card.labels);
    if k < columns.len() {
        let ghost before = columns@;
        let mut column = columns.remove(k);
        column.add_card(card);
        columns.insert(k, column);
        assert(columns_view(columns@) =~= columns_view(before).update(
            k as int,
            with_card(columns_view(before)[k as int], card@),
        ));
    }
}

impl KanbanBoard {
    /// A board with the four default columns and no card, last updated at
    /// `now`.
    pub fn new(title: String, now: Timestamp) -> (r: KanbanBoard)
        ensures
            r.title == title,
            columns_view(r.columns@) == default_columns(),
            r.last_updated == now,
    {
        let mut columns: Vec<KanbanColumn> = Vec::new();
        columns.push(
            KanbanColumn::new(
                "preparing".to_owned(),
                "Preparing".to_owned(),
                "Preparing".to_owned(),
                "#fef3c7".to_owned(),
            ),
        );
        columns.push(
            KanbanColumn::new(
                "progressing".to_owned(),
                "Progressing".to_owned(),
                "Progressing".to_owned(),
                "#bfdbfe".to_owned(),
            ),
        );
        columns.push(
            KanbanColumn::new(
                "done".to_owned(),
                "Done".to_owned(),
                "Done".to_owned(),
                "#bbf7d0".to_owned(),
            ),
        );
        columns.push(
            KanbanColumn::new(
                "backlog".to_owned(),
                "Backlog".to_owned(),
                "".to_owned(),
                "#f3f4f6".to_owned(),
            ),
        );
        assert(columns_view(columns@) =~= default_columns());
        KanbanBoard { columns, title, last_updated: now }
    }

    /// The number of cards in all columns.
    pub fn total_cards(&self) -> (r: usize)
        requires
            card_total(columns_view(self.columns@)) <= usize::MAX,
        ensures
            r == card_total(columns_view(self.columns@)),
    {
        let ghost cols = columns_view(self.columns@);
        let mut total: usize = 0;
        let mut i: usize = 0;
        assert(cols.take(0) == Seq::<ColumnView>::empty());
        while i < self.columns.len()
            invariant
                i <= self.columns.len(),
                cols == columns_view(self.columns@),
                card_total(cols) <= usize::MAX,
                total == card_total(cols.take(i as int)),
            decreases self.columns.len() - i,
        {
            proof {
                let next = cols.take(i + 1);
                assert(next.drop_last() == cols.take(i as int));
                assert(next.last() == self.columns@[i as int]@);
                lemma_card_total_prefix(cols, i + 1);
            }
            total = total + self.columns[i].cards.len();
            i += 1;
        }
        assert(cols.take(self.columns.len() as int) == cols);
        total
    }

    /// The board of the issues of the remote tracker, last updated at `now`:
    /// each issue goes into the first workflow column whose label it carries,
    /// and into the backlog where it carries none.
    pub fn from_issues(title: String, issues: &Vec<RemoteIssue>, now: Timestamp) -> (r:
        KanbanBoard)
        ensures
            r.title == title,
            columns_view(r.columns@) == place_all(default_columns(), issues@),
            r.last_updated == now,
    {
        let mut board = KanbanBoard::new(title, now);
        let mut columns = board.columns;
        let mut i: usize = 0;
        assert(issues@.take(0) == Seq::<RemoteIssue>::empty());
        while i < issues.len()
            invariant
                i <= issues.len(),
                columns_view(columns@) == place_all(default_columns(), issues@.take(i as int)),
            decreases issues.len() - i,
        {
            proof {
                let next = issues@.take(i + 1);
                assert(next.drop_last() == issues@.take(i as int));
                assert(next.last() == issues@[i as int]);
            }
            let mut card = KanbanCard::from_github_issue(&issues[i]);
            card.set_priority_from_labels();
            place_card(&mut columns, card);
            i += 1;
        }
        assert(issues@.take(issues.len() as int) == issues@);
        KanbanBoard { columns, title: board.title, last_updated: now }
    }
}

/// Whether `issue` carries the label `label`.
pub open spec fn carries(issue: RemoteIssue, label: Seq<char>) -> bool {
    strings_view(issue.labels@).contains(label)
}

/// Whether `issue` belongs to the backlog: it carries no workflow label.
pub open spec fn in_backlog(issue: RemoteIssue) -> bool {
    !carries(issue, "Preparing"@) && !carries(issue, "Progressing"@) && !carries(issue, "Done"@)
}

/// The issues of `all` that carry the label `label`, in order.
pub fn issues_with_label(all: Vec<RemoteIssue>, label: &str) -> (r: Vec<RemoteIssue>)
    ensures
        r@ == all@.filter(|issue: RemoteIssue| carries(issue, label@)),
{
    let ghost wanted = |issue: RemoteIssue| carries(issue, label@);
    let mut r: Vec<RemoteIssue> = Vec::new();
    proof {
        reveal(Seq::filter);
        assert(all@.take(0) == Seq::<RemoteIssue>::empty());
    }
    for issue in it: all
        invariant
            wanted == |issue: RemoteIssue| carries(issue, label@),
            r@ == it.seq().take(it.index()).filter(wanted),
            it.seq() == all@,
    {
        proof {
            reveal(Seq::filter);
            let next = it.seq().take(it.index() + 1);
            assert(next.drop_last() == it.seq().take(it.index()));
            assert(next.last() == issue);
        }
        if has_label(&issue.labels, label) {
            r.push(issue);
        }
    }
    assert(all@.take(all@.len() as int) == all@);
    r
}

/// The issues of `all` that belong to the backlog, in order.
pub fn backlog_issues(all: Vec<RemoteIssue>) -> (r: Vec<RemoteIssue>)
    ensures
        r@ == all@.filter(|issue: RemoteIssue| in_backlog(issue)),
{
    let ghost wanted = |issue: RemoteIssue| in_backlog(issue);
    let mut r: Vec<RemoteIssue> = Vec::new();
    proof {
        reveal(Seq::filter);
        assert(all@.take(0) == Seq::<RemoteIssue>::empty());
    }
    for issue in it: all
        invariant
            wanted == |issue: RemoteIssue| in_backlog(issue),
            r@ == it.seq().take(it.index()).filter(wanted),
            it.seq() == all@,
    {
        proof {
            reveal(Seq::filter);
            let next = it.seq().take(it.index() + 1);
            assert(next.drop_last() == it.seq().take(it.index()));
            assert(next.last() == issue);
        }
        if !has_label(&issue.labels, "Preparing") && !has_label(&issue.labels, "Progressing")
            && !has_label(&issue.labels, "Done") {
            r.push(issue);
        }
    }
    assert(all@.take(all@.len() as int) == all@);
    r
}

/// The issues of `all` that belong into `column`: for the backlog those
/// without workflow label, for any other column those with its label.
pub open spec fn issues_of_column(column: ColumnView, all: Seq<RemoteIssue>) -> Seq<RemoteIssue> {
    if column.id == "backlog"@ {
        all.filter(|issue: RemoteIssue| in_backlog(issue))
    } else {
        all.filter(|issue: RemoteIssue| carries(issue, column.label_name))
    }
}

/// Fills `column` anew from the issues of the tracker: the cards it had are
/// dropped, and it gets the card of each issue that belongs into it.
pub fn refresh_column(column: &mut KanbanColumn, all: Vec<RemoteIssue>)
    ensures
        final(column)@ == (ColumnView {
            cards: issues_of_column(old(column)@, all@).map_values(
                |issue: RemoteIssue| card_of(issue),
            ),
            ..old(column)@
        }),
{
    let issues = if same_text(column.id.as_str(), "backlog") {
        backlog_issues(all)
    } else {
        issues_with_label(all, column.label_name.as_str())
    };
    let mut cards: Vec<KanbanCard> = Vec::new();
    let mut i: usize = 0;
    while i < issues.len()
        invariant
            i <= issues.len(),
            cards_view(cards@) == issues@.take(i as int).map_values(
                |issue: RemoteIssue| card_of(issue),
            ),
        decreases issues.len() - i,
    {
        let mut card = KanbanCard::from_github_issue(&issues[i]);
        card.set_priority_from_labels();
        proof {
            let f = |issue: RemoteIssue| card_of(issue);
            assert(card@ == card_of(issues@[i as int]));
            assert(cards_view(cards@.push(card)) == cards_view(cards@).push(card@));
            assert(issues@.take(i + 1).map_values(f) =~= issues@.take(i as int).map_values(
                f,
            ).push(f(issues@[i as int])));
        }
        cards.push(card);
        i += 1;
    }
    assert(issues@.take(issues.len() as int) == issues@);
    column.cards = cards;
}

/// What a move of an issue between columns does to its labels.
#[derive(Debug, Clone)]
pub struct MovePlan {
    /// The label to take from the issue. That the issue does not carry it is
    /// no failure of the move.
    pub remove_label: Option<String>,
    /// The label to put on the issue.
    pub add_label: Option<String>,
}

/// Whether `column` stands for a label: it is named, and it is not the backlog.
pub open spec fn has_own_label(column: Seq<char>) -> bool {
    column.len() > 0 && column != "backlog"@
}

/// What the move of an issue from `from_column` to `to_column` does to its
/// labels: the label of the old column goes and that of the new one comes,
/// each only where the column stands for a label.
pub fn plan_move(from_column: &str, to_column: &str) -> (r: MovePlan)
    ensures
        optional_view(r.remove_label) == if has_own_label(from_column@) {
            Some(from_column@)
        } else {
            None
        },
        optional_view(r.add_label) == if has_own_label(to_column@) {
            Some(to_column@)
        } else {
            None
        },
{
    let remove_label = if from_column.unicode_len() > 0 && !same_text(from_column, "backlog") {
        Some(from_column.to_owned())
    } else {
        None
    };
    let add_label = if to_column.unicode_len() > 0 && !same_text(to_column, "backlog") {
        Some(to_column.to_owned())
    } else {
        None
    };
    MovePlan { remove_label, add_label }
}

} // verus!
