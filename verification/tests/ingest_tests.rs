use atask::db::GitCommit;
use atask::history::parse_git_log;
use atask::ingest::{IngestAction, Ingestion, StoreEvent};
use atask::time::Timestamp;
use std::collections::HashSet;

fn commit(hash: &str) -> GitCommit {
    GitCommit {
        id: None,
        hash: hash.to_string(),
        author_name: "a".to_string(),
        author_email: "e".to_string(),
        commit_date: Timestamp { secs: 0, nanos: 0 },
        message: "m".to_string(),
        files_changed: vec![],
        insertions: 0,
        deletions: 0,
    }
}

/// Runs an ingestion against a store of hashes whose insert fails on a hash
/// that it holds, and returns the number of records inserted.
fn run(store: &mut HashSet<String>, records: Vec<GitCommit>) -> usize {
    let mut ingestion = Ingestion::new(records);
    loop {
        match ingestion.action() {
            IngestAction::Lookup(i) => {
                let found = store.contains(&ingestion.records()[i].hash);
                ingestion.advance(if found { StoreEvent::Present } else { StoreEvent::Missing });
            }
            IngestAction::Insert(i) => {
                let fresh = store.insert(ingestion.records()[i].hash.clone());
                assert!(fresh, "a hash that the store holds must never be inserted");
                ingestion.advance(StoreEvent::Inserted);
            }
            IngestAction::Done(count) => return count,
        }
    }
}

#[test]
fn second_run_over_the_same_records_inserts_nothing() {
    let records = || vec![commit("a"), commit("b"), commit("c")];
    let mut store = HashSet::new();
    assert_eq!(run(&mut store, records()), 3);
    assert_eq!(run(&mut store, records()), 0);
    assert_eq!(store.len(), 3);
}

#[test]
fn each_hash_is_inserted_once() {
    let mut store = HashSet::new();
    store.insert("b".to_string());
    let records = vec![commit("a"), commit("b"), commit("a"), commit("c"), commit("c")];
    assert_eq!(run(&mut store, records), 2);
    assert_eq!(store.len(), 3);
    assert_eq!(run(&mut store, vec![]), 0);
}

#[test]
fn ingestion_of_a_parsed_log_is_idempotent() {
    let text = "abc|a|b|2024-01-01 10:00:00 +0000|one\n1\t1\tf\n\ndef|a|b|2024-01-02 10:00:00 +0000|two\n";
    let mut store = HashSet::new();
    assert_eq!(run(&mut store, parse_git_log(text).unwrap()), 2);
    assert_eq!(run(&mut store, parse_git_log(text).unwrap()), 0);
}

#[test]
fn actions_follow_the_answers_of_the_store() {
    let mut ingestion = Ingestion::new(vec![commit("a"), commit("b")]);
    assert_eq!(ingestion.action(), IngestAction::Lookup(0));
    ingestion.advance(StoreEvent::Inserted);
    assert_eq!(ingestion.action(), IngestAction::Lookup(0));
    ingestion.advance(StoreEvent::Missing);
    assert_eq!(ingestion.action(), IngestAction::Insert(0));
    ingestion.advance(StoreEvent::Present);
    assert_eq!(ingestion.action(), IngestAction::Insert(0));
    ingestion.advance(StoreEvent::Missing);
    assert_eq!(ingestion.action(), IngestAction::Insert(0));
    ingestion.advance(StoreEvent::Inserted);
    assert_eq!(ingestion.action(), IngestAction::Lookup(1));
    ingestion.advance(StoreEvent::Present);
    assert_eq!(ingestion.action(), IngestAction::Done(1));
    ingestion.advance(StoreEvent::Missing);
    assert_eq!(ingestion.action(), IngestAction::Done(1));
    assert_eq!(Ingestion::new(vec![]).action(), IngestAction::Done(0));
}
