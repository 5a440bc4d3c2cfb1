//! Failures of the stores and their classes.
use vstd::prelude::*;
use vstd::std_specs::convert::FromSpecImpl;
use vstd::string::StringExecFns;

verus! {

/// Whether `pattern` occurs in `text` as a run of consecutive characters.
pub open spec fn has_substring(text: Seq<char>, pattern: Seq<char>) -> bool {
    exists|start: int|
        0 <= start && start + pattern.len() <= text.len() && #[trigger] text.subrange(
            start,
            start + pattern.len(),
        ) == pattern
}

/// `str::contains` with a string as the pattern: true exactly where the
/// pattern matches a sub-slice of the text, that is, where its characters
/// occur in the text one after the other.
#[verifier::external_body]
fn str_contains(text: &str, pattern: &str) -> (found: bool)
    ensures
        found == has_substring(text@, pattern@),
{
    text.contains(pattern)
}

/// What the credential and token stores report when a query did not run to
/// its end, as far as the classification below reads it.
#[derive(Debug, PartialEq, Eq)]
pub enum StoreFailure {
    /// The database answered with an error of its own, with this message.
    Database { message: String },
    /// No connection came free before the pool's acquisition timeout.
    PoolTimedOut { description: String },
    /// Any other failure of the driver.
    Other { description: String },
}

/// A store failure as the callers of the stores see it.
#[derive(Debug, PartialEq, Eq)]
pub enum DbError {
    ConnectionError { message: String },
    QueryError { message: String },
    TimeOut(String),
    Other(String),
}

/// A `DbError` with its texts as sequences of characters.
pub ghost enum DbErrorView {
    ConnectionError { message: Seq<char> },
    QueryError { message: Seq<char> },
    TimeOut(Seq<char>),
    Other(Seq<char>),
}

impl View for DbError {
    type V = DbErrorView;

    open spec fn view(&self) -> DbErrorView {
        match *self {
            DbError::ConnectionError { message } => DbErrorView::ConnectionError {
                message: message@,
            },
            DbError::QueryError { message } => DbErrorView::QueryError { message: message@ },
            DbError::TimeOut(description) => DbErrorView::TimeOut(description@),
            DbError::Other(description) => DbErrorView::Other(description@),
        }
    }
}

/// The word that tells a connection problem from a failed query.
pub open spec fn connection_marker() -> Seq<char> {
    "connection"@
}

/// The class of a store failure: a database error is a connection error
/// where its message mentions a connection and a query error otherwise; a
/// pool timeout and every other failure keep their own class.
pub open spec fn classify(failure: StoreFailure) -> DbError {
    match failure {
        StoreFailure::Database { message } => if has_substring(message@, connection_marker()) {
            DbError::ConnectionError { message }
        } else {
            DbError::QueryError { message }
        },
        StoreFailure::PoolTimedOut { description } => DbError::TimeOut(description),
        StoreFailure::Other { description } => DbError::Other(description),
    }
}

impl From<StoreFailure> for DbError {
    fn from(failure: StoreFailure) -> (error: DbError) {
        match failure {
            StoreFailure::Database { message } => {
                if str_contains(message.as_str(), "connection") {
                    DbError::ConnectionError { message }
                } else {
                    DbError::QueryError { message }
                }
            },
            StoreFailure::PoolTimedOut { description } => DbError::TimeOut(description),
            StoreFailure::Other { description } => DbError::Other(description),
        }
    }
}

impl FromSpecImpl<StoreFailure> for DbError {
    open spec fn obeys_from_spec() -> bool {
        true
    }

    open spec fn from_spec(failure: StoreFailure) -> DbError {
        classify(failure)
    }
}

/// The text that describes a store failure.
pub open spec fn db_error_text(error: DbErrorView) -> Seq<char> {
    match error {
        DbErrorView::ConnectionError { message } => "Database connection error: "@ + message
            + " "@,
        DbErrorView::QueryError { message } => "Database query error: "@ + message + " "@,
        DbErrorView::TimeOut(description) => "Pool timeout error: "@ + description,
        DbErrorView::Other(description) => "Other database error: "@ + description,
    }
}

impl DbError {
    /// The text that describes the failure.
    pub fn to_string(&self) -> (text: String)
        ensures
            text@ == db_error_text(self@),
    {
        match self {
            DbError::ConnectionError { message } => {
                let mut text = String::from_str("Database connection error: ");
                text.append(message.as_str());
                text.append(" ");
                text
            },
            DbError::QueryError { message } => {
                let mut text = String::from_str("Database query error: ");
                text.append(message.as_str());
                text.append(" ");
                text
            },
            DbError::TimeOut(description) => {
                let mut text = String::from_str("Pool timeout error: ");
                text.append(description.as_str());
                text
            },
            DbError::Other(description) => {
                let mut text = String::from_str("Other database error: ");
                text.append(description.as_str());
                text
            },
        }
    }
}

} // verus!
