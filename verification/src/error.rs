//! The errors that the parsers and extractors of this crate report.

use vstd::prelude::*;

verus! {

/// A text that does not have the form that its reader asks for.
#[derive(Clone, Copy, Debug, PartialEq, Eq, Structural)]
pub enum ParseError {
    /// The date of a commit header or of a stored row cannot be read.
    InvalidDate,
    /// An SSH remote address without a colon after the host.
    InvalidSshUrl,
    /// An HTTPS remote address in which no slash follows the host.
    InvalidHttpsUrl,
    /// A remote address that does not name the hosting service.
    UnknownHost,
    /// A repository path that is not made of exactly two segments.
    InvalidRepositoryPath,
    /// A commit identifier that is not forty hexadecimal digits.
    InvalidHash,
    /// A text that names no issue status.
    InvalidStatus,
    /// A text that names no issue priority.
    InvalidPriority,
    /// A stored list of files that is not a JSON array of strings.
    InvalidFileList,
    /// A stored line count that is negative.
    InvalidCount,
}

/// A repository whose objects cannot be turned into commit records.
#[derive(Clone, Copy, Debug, PartialEq, Eq, Structural)]
pub enum RepositoryError {
    /// The starting reference cannot be resolved, or an object of the history
    /// cannot be read.
    Unresolved,
    /// The author time of a commit lies outside the range of dates.
    InvalidTimestamp,
}

impl ParseError {
    /// What this error says, in words.
    pub open spec fn text(self) -> Seq<char> {
        match self {
            ParseError::InvalidDate => "Failed to parse date"@,
            ParseError::InvalidSshUrl => "Invalid SSH URL format"@,
            ParseError::InvalidHttpsUrl => "Invalid HTTPS URL format"@,
            ParseError::UnknownHost => "URL does not appear to be a GitHub repository"@,
            ParseError::InvalidRepositoryPath => "Invalid repository path format"@,
            ParseError::InvalidHash => "Invalid commit hash format"@,
            ParseError::InvalidStatus => "Invalid issue status"@,
            ParseError::InvalidPriority => "Invalid issue priority"@,
            ParseError::InvalidFileList => "Invalid list of changed files"@,
            ParseError::InvalidCount => "Invalid line count"@,
        }
    }

    /// What this error says, in words.
    pub fn message(&self) -> (r: String)
        ensures
            r@ == self.text(),
    {
        match self {
            ParseError::InvalidDate => "Failed to parse date".to_owned(),
            ParseError::InvalidSshUrl => "Invalid SSH URL format".to_owned(),
            ParseError::InvalidHttpsUrl => "Invalid HTTPS URL format".to_owned(),
            ParseError::UnknownHost => "URL does not appear to be a GitHub repository".to_owned(),
            ParseError::InvalidRepositoryPath => "Invalid repository path format".to_owned(),
            ParseError::InvalidHash => "Invalid commit hash format".to_owned(),
            ParseError::InvalidStatus => "Invalid issue status".to_owned(),
            ParseError::InvalidPriority => "Invalid issue priority".to_owned(),
            ParseError::InvalidFileList => "Invalid list of changed files".to_owned(),
            ParseError::InvalidCount => "Invalid line count".to_owned(),
        }
    }
}

impl RepositoryError {
    /// What this error says, in words.
    pub open spec fn text(self) -> Seq<char> {
        match self {
            RepositoryError::Unresolved => "Failed to resolve repository object"@,
            RepositoryError::InvalidTimestamp => "Failed to parse commit timestamp"@,
        }
    }

    /// What this error says, in words.
    pub fn message(&self) -> (r: String)
        ensures
            r@ == self.text(),
    {
        match self {
            RepositoryError::Unresolved => "Failed to resolve repository object".to_owned(),
            RepositoryError::InvalidTimestamp => "Failed to parse commit timestamp".to_owned(),
        }
    }
}

} // verus!
