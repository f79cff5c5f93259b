//! The ingestion coordinator: which records of an extraction go into the store.
//!
//! The store is asked about each record's hash, and only a record whose hash it
//! does not hold is inserted. The coordinator decides; the caller talks to the
//! store, carries out each action and reports what the store answered.

use vstd::prelude::*;
use crate::db::{commits_view, CommitView, GitCommit};

verus! {

/// What ingestion does to a store that holds the hashes `present`: the hashes
/// it holds afterwards, and the records that were inserted, in order.
pub open spec fn ingest(present: Set<Seq<char>>, records: Seq<CommitView>) -> (
    Set<Seq<char>>,
    Seq<CommitView>,
)
    decreases records.len(),
{
    if records.len() == 0 {
        (present, Seq::empty())
    } else {
        let (store, inserted) = ingest(present, records.drop_last());
        let record = records.last();
        if store.contains(record.hash) {
            (store, inserted)
        } else {
            (store.insert(record.hash), inserted.push(record))
        }
    }
}

/// After ingestion the store holds what it held before and the hash of every
/// record, and nothing else; each inserted record is one of the records.
pub proof fn lemma_ingest_store(present: Set<Seq<char>>, records: Seq<CommitView>)
    ensures
        forall|h: Seq<char>| #[trigger]
            ingest(present, records).0.contains(h) <==> (present.contains(h) || exists|i: int|
                0 <= i < records.len() && (#[trigger] records[i]).hash == h),
        ingest(present, records).1.len() <= records.len(),
    decreases records.len(),
{
    if records.len() > 0 {
        let front = records.drop_last();
        lemma_ingest_store(present, front);
        let after = ingest(present, records).0;
        assert forall|h: Seq<char>| #[trigger]
            after.contains(h) <==> (present.contains(h) || exists|i: int|
                0 <= i < records.len() && (#[trigger] records[i]).hash == h) by {
            if after.contains(h) && !present.contains(h) {
                if ingest(present, front).0.contains(h) {
                    let i = choose|i: int| 0 <= i < front.len() && (#[trigger] front[i]).hash == h;
                    assert(records[i].hash == h);
                } else {
                    assert(records[records.len() - 1].hash == h);
                }
            }
            if exists|i: int| 0 <= i < records.len() && (#[trigger] records[i]).hash == h {
                let i = choose|i: int| 0 <= i < records.len() && (#[trigger] records[i]).hash == h;
                if i < front.len() {
                    assert(front[i].hash == h);
                }
            }
        }
    }
}

/// No hash is inserted twice, and none that the store held before.
pub proof fn lemma_ingest_once(present: Set<Seq<char>>, records: Seq<CommitView>)
    ensures
        forall|i: int|
            0 <= i < ingest(present, records).1.len() ==> !present.contains(
                (#[trigger] ingest(present, records).1[i]).hash,
            ),
        forall|i: int, j: int|
            0 <= i < j < ingest(present, records).1.len() ==> (#[trigger] ingest(
                present,
                records,
            ).1[i]).hash != (#[trigger] ingest(present, records).1[j]).hash,
        forall|i: int|
            0 <= i < ingest(present, records).1.len() ==> ingest(present, records).0.contains(
                (#[trigger] ingest(present, records).1[i]).hash,
            ),
    decreases records.len(),
{
    if records.len() > 0 {
        let front = records.drop_last();
        lemma_ingest_once(present, front);
        lemma_ingest_store(present, front);
    }
}

/// A store that holds the hash of every record takes none of them.
pub proof fn lemma_ingest_known(present: Set<Seq<char>>, records: Seq<CommitView>)
    requires
        forall|i: int| 0 <= i < records.len() ==> present.contains((#[trigger] records[i]).hash),
    ensures
        ingest(present, records) == (present, Seq::<CommitView>::empty()),
    decreases records.len(),
{
    if records.len() > 0 {
        let front = records.drop_last();
        assert forall|i: int| 0 <= i < front.len() implies present.contains(
            (#[trigger] front[i]).hash,
        ) by {
            assert(front[i] == records[i]);
        }
        lemma_ingest_known(present, front);
        assert(present.contains(records[records.len() - 1].hash));
    }
}

/// Ingestion is idempotent: a second run over the same records, on the store
/// that the first run left, inserts nothing and leaves the store as it is.
pub proof fn lemma_ingest_idempotent(present: Set<Seq<char>>, records: Seq<CommitView>)
    ensures
        ingest(ingest(present, records).0, records) == (
            ingest(present, records).0,
            Seq::<CommitView>::empty(),
        ),
{
    lemma_ingest_store(present, records);
    lemma_ingest_known(ingest(present, records).0, records);
}

/// What the store answered to the last action.
#[derive(Debug, Clone, Copy, PartialEq, Eq, Structural)]
pub enum StoreEvent {
    /// The store holds a record with the hash that was looked up.
    Present,
    /// The store holds no record with the hash that was looked up.
    Missing,
    /// The store has taken the record that was to be inserted.
    Inserted,
}

/// What the caller is to do next. A number names a record by its position.
#[derive(Debug, Clone, Copy, PartialEq, Eq, Structural)]
pub enum IngestAction {
    /// Ask the store whether it holds the hash of this record.
    Lookup(usize),
    /// Insert this record into the store.
    Insert(usize),
    /// Nothing is left to do; the number tells how many records were inserted.
    Done(usize),
}

/// The state of an ingestion: the records, how many of them are dealt with,
/// whether the next one is waiting to be inserted, and how many were inserted.
pub struct Ingestion {
    records: Vec<GitCommit>,
    next: usize,
    awaiting_insert: bool,
    inserted: usize,
}

/// The state of an ingestion, as mathematical values.
pub struct IngestView {
    pub records: Seq<CommitView>,
    pub next: nat,
    pub awaiting_insert: bool,
    pub inserted: nat,
}

impl IngestView {
    /// The counters lie inside the records.
    pub open spec fn wf(self) -> bool {
        &&& self.next <= self.records.len()
        &&& self.inserted <= self.next
        &&& self.awaiting_insert ==> self.next < self.records.len()
    }

    /// Whether every record is dealt with.
    pub open spec fn finished(self) -> bool {
        self.next >= self.records.len()
    }

    /// The state at the start of an ingestion of `records`.
    pub open spec fn start(records: Seq<CommitView>) -> IngestView {
        IngestView { records, next: 0, awaiting_insert: false, inserted: 0 }
    }

    /// The action that this state asks for.
    pub open spec fn pending(self) -> IngestAction {
        if self.finished() {
            IngestAction::Done(self.inserted as usize)
        } else if self.awaiting_insert {
            IngestAction::Insert(self.next as usize)
        } else {
            IngestAction::Lookup(self.next as usize)
        }
    }

    /// The state after the store's answer `event`. An answer that does not fit
    /// the pending action changes nothing, so the action is asked for again.
    pub open spec fn after(self, event: StoreEvent) -> IngestView {
        if self.finished() {
            self
        } else if self.awaiting_insert {
            if event == StoreEvent::Inserted {
                IngestView {
                    next: self.next + 1,
                    awaiting_insert: false,
                    inserted: self.inserted + 1,
                    ..self
                }
            } else {
                self
            }
        } else {
            match event {
                StoreEvent::Present => IngestView { next: self.next + 1, ..self },
                StoreEvent::Missing => IngestView { awaiting_insert: true, ..self },
                StoreEvent::Inserted => self,
            }
        }
    }

    /// What a store answers to the pending action, if it held the hashes
    /// `present` at the start and has carried out every action since.
    pub open spec fn answer(self, present: Set<Seq<char>>) -> StoreEvent {
        if self.awaiting_insert {
            StoreEvent::Inserted
        } else if ingest(present, self.records.take(self.next as int)).0.contains(
            self.records[self.next as int].hash,
        ) {
            StoreEvent::Present
        } else {
            StoreEvent::Missing
        }
    }

    /// Whether this state is what ingestion into a store that held `present`
    /// has come to: as many records inserted as the model says, and, where a
    /// record waits to be inserted, a store that does not hold its hash.
    pub open spec fn agrees(self, present: Set<Seq<char>>) -> bool {
        let (store, inserted) = ingest(present, self.records.take(self.next as int));
        &&& self.wf()
        &&& self.inserted == inserted.len()
        &&& self.awaiting_insert ==> !store.contains(self.records[self.next as int].hash)
    }
}

impl View for Ingestion {
    type V = IngestView;

    closed spec fn view(&self) -> IngestView {
        IngestView {
            records: commits_view(self.records@),
            next: self.next as nat,
            awaiting_insert: self.awaiting_insert,
            inserted: self.inserted as nat,
        }
    }
}

impl Ingestion {
    #[verifier::type_invariant]
    spec fn counters_fit(&self) -> bool {
        self@.wf()
    }

    /// Starts the ingestion of `records`.
    pub fn new(records: Vec<GitCommit>) -> (r: Ingestion)
        ensures
            r@ == IngestView::start(commits_view(records@)),
    {
        Ingestion { records, next: 0, awaiting_insert: false, inserted: 0 }
    }

    /// The records of this ingestion, in the order in which they are dealt with.
    pub fn records(&self) -> (r: &Vec<GitCommit>)
        ensures
            commits_view(r@) == self@.records,
    {
        &self.records
    }

    /// What the caller is to do next.
    pub fn action(&self) -> (r: IngestAction)
        ensures
            self@.wf(),
            r == self@.pending(),
            r matches IngestAction::Lookup(i) ==> i < self@.records.len(),
            r matches IngestAction::Insert(i) ==> i < self@.records.len(),
    {
        proof {
            use_type_invariant(self);
        }
        if self.next >= self.records.len() {
            IngestAction::Done(self.inserted)
        } else if self.awaiting_insert {
            IngestAction::Insert(self.next)
        } else {
            IngestAction::Lookup(self.next)
        }
    }

    /// Takes the store's answer to the pending action.
    pub fn advance(&mut self, event: StoreEvent)
        ensures
            final(self)@ == old(self)@.after(event),
    {
        proof {
            use_type_invariant(&*self);
        }
        if self.next >= self.records.len() {
            return ;
        }
        if self.awaiting_insert {
            if event == StoreEvent::Inserted {
                self.awaiting_insert = false;
                self.next = self.next + 1;
                self.inserted = self.inserted + 1;
            }
        } else {
            match event {
                StoreEvent::Present => {
                    self.next = self.next + 1;
                },
                StoreEvent::Missing => {
                    self.awaiting_insert = true;
                },
                StoreEvent::Inserted => {},
            }
        }
    }
}

/// The start of an ingestion agrees with the model.
pub proof fn lemma_start_agrees(present: Set<Seq<char>>, records: Seq<CommitView>)
    ensures
        IngestView::start(records).agrees(present),
{
    assert(records.take(0) == Seq::<CommitView>::empty());
}

/// A state that agrees with the model still agrees after the answer of a store
/// that has carried out every action.
pub proof fn lemma_answer_agrees(present: Set<Seq<char>>, state: IngestView)
    requires
        state.agrees(present),
        !state.finished(),
    ensures
        state.after(state.answer(present)).agrees(present),
{
    let next = state.next as int;
    let longer = state.records.take(next + 1);
    assert(longer.drop_last() == state.records.take(next));
    assert(longer.last() == state.records[next]);
}

/// An ingestion that agrees with the model and is finished has inserted
/// exactly the records that the model inserts.
pub proof fn lemma_finished_agrees(present: Set<Seq<char>>, state: IngestView)
    requires
        state.agrees(present),
        state.finished(),
    ensures
        state.pending() == IngestAction::Done(state.inserted as usize),
        state.inserted == ingest(present, state.records).1.len(),
{
    assert(state.records.take(state.next as int) == state.records);
}

} // verus!
