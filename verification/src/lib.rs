//! Commit-history mining and a task board, with verified contracts.
//!
//! The history of a repository is read in one of two ways: from the objects
//! of the repository (`git_ops`) or from the text of a commit log
//! (`history`). Both yield the same commit records, which `ingest` puts into
//! the store once each, however often the history is read. `db` holds the
//! records and the rows of the store, `github_cli` the issues as the
//! tracker's client lists them, `kanban` the board, and `web` what the web
//! interface answers. `text` and `time` hold the helpers for characters and
//! for instants, `error` the errors.

pub mod db;
pub mod error;
pub mod git_ops;
pub mod github_cli;
pub mod history;
pub mod ingest;
pub mod kanban;
pub mod text;
pub mod time;
pub mod web;
