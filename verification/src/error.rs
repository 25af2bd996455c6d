//! The two ways a repository operation fails, and what each means over HTTP.

use vstd::prelude::*;

verus! {

/// HTTP status of a successful response.
pub const STATUS_OK: u16 = 200;

/// HTTP status of every failed response: a failure of the repository is a
/// fault of the server, never of the client.
pub const STATUS_INTERNAL_SERVER_ERROR: u16 = 500;

/// A failure of a repository operation.
#[derive(Debug, PartialEq, Eq)]
pub enum RepositoryError {
    /// No connection could be had, or the statement failed (a violated
    /// constraint included). Holds the description that storage gave.
    Storage(String),
    /// An insert reported success and returned no row.
    NotFound,
}

/// Mathematical model of a [`RepositoryError`].
pub enum ErrorView {
    Storage(Seq<char>),
    NotFound,
}

impl View for RepositoryError {
    type V = ErrorView;

    open spec fn view(&self) -> ErrorView {
        match *self {
            RepositoryError::Storage(description) => ErrorView::Storage(description@),
            RepositoryError::NotFound => ErrorView::NotFound,
        }
    }
}

/// The HTTP status that reports an error.
pub open spec fn status_of(e: ErrorView) -> int {
    STATUS_INTERNAL_SERVER_ERROR as int
}

/// The text that describes an error.
pub open spec fn message_of(e: ErrorView) -> Seq<char> {
    match e {
        ErrorView::Storage(description) => description,
        ErrorView::NotFound => "no row was returned"@,
    }
}

impl RepositoryError {
    /// The HTTP status that reports this error.
    pub fn status(&self) -> (code: u16)
        ensures
            code as int == status_of(self@),
            code == STATUS_INTERNAL_SERVER_ERROR,
    {
        match self {
            RepositoryError::Storage(_) => STATUS_INTERNAL_SERVER_ERROR,
            RepositoryError::NotFound => STATUS_INTERNAL_SERVER_ERROR,
        }
    }

    /// The text that describes this error.
    pub fn message(&self) -> (text: String)
        ensures
            text@ == message_of(self@),
    {
        match self {
            RepositoryError::Storage(description) => description.clone(),
            RepositoryError::NotFound => "no row was returned".to_owned(),
        }
    }
}

impl Clone for RepositoryError {
    fn clone(&self) -> (copy: RepositoryError)
        ensures
            copy == *self,
    {
        match self {
            RepositoryError::Storage(description) => RepositoryError::Storage(description.clone()),
            RepositoryError::NotFound => RepositoryError::NotFound,
        }
    }
}

} // verus!
