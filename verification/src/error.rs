//! The failures a call can end in, and the text each is reported with.

use vstd::prelude::*;
use vstd::string::StringExecFns;

verus! {

/// Reported when no stored handle exists.
pub const NO_HANDLE_MESSAGE: &'static str = "No database pool";

/// Reported when the stored handle reports itself closed.
pub const HANDLE_CLOSED_MESSAGE: &'static str = "Connection closed";

/// Reported when execution succeeded but did not yield one text value.
pub const UNEXPECTED_SHAPE_MESSAGE: &'static str = "Unexpected result shape";

/// An operation needed a live handle and there was none: either nothing is
/// stored, or what is stored reports itself closed.
#[derive(Clone, Copy, Debug, PartialEq, Eq, Structural)]
pub enum NotConnectedError {
    NoHandle,
    HandleClosed,
}

impl NotConnectedError {
    /// The text this failure is reported with.
    pub open spec fn message_text(self) -> Seq<char> {
        match self {
            NotConnectedError::NoHandle => NO_HANDLE_MESSAGE@,
            NotConnectedError::HandleClosed => HANDLE_CLOSED_MESSAGE@,
        }
    }

    /// The text this failure is reported with.
    pub fn message(&self) -> (text: String)
        ensures
            text@ == self.message_text(),
    {
        match self {
            NotConnectedError::NoHandle => String::from_str(NO_HANDLE_MESSAGE),
            NotConnectedError::HandleClosed => String::from_str(HANDLE_CLOSED_MESSAGE),
        }
    }
}

/// A `connect` call failed: the previous handle could not be disposed of, or
/// the new one could not be established. Either way the diagnostic of the
/// underlying failure is carried along unchanged.
#[derive(Debug, PartialEq, Eq)]
pub enum ConnectError {
    DisposalFailed(String),
    OpenFailed(String),
}

/// A [`ConnectError`] with its diagnostic as a sequence of characters.
pub enum ConnectErrorView {
    DisposalFailed(Seq<char>),
    OpenFailed(Seq<char>),
}

impl ConnectErrorView {
    /// The text this failure is reported with: the underlying diagnostic.
    pub open spec fn message_text(self) -> Seq<char> {
        match self {
            ConnectErrorView::DisposalFailed(diagnostic) => diagnostic,
            ConnectErrorView::OpenFailed(diagnostic) => diagnostic,
        }
    }
}

impl View for ConnectError {
    type V = ConnectErrorView;

    open spec fn view(&self) -> ConnectErrorView {
        match self {
            ConnectError::DisposalFailed(diagnostic) => ConnectErrorView::DisposalFailed(
                diagnostic@,
            ),
            ConnectError::OpenFailed(diagnostic) => ConnectErrorView::OpenFailed(diagnostic@),
        }
    }
}

impl ConnectError {
    /// The text this failure is reported with.
    pub fn message(&self) -> (text: String)
        ensures
            text@ == self@.message_text(),
    {
        match self {
            ConnectError::DisposalFailed(diagnostic) => diagnostic.clone(),
            ConnectError::OpenFailed(diagnostic) => diagnostic.clone(),
        }
    }
}

/// An `execute_query` call failed.
#[derive(Debug, PartialEq, Eq)]
pub enum QueryError {
    /// No live handle was available when the query was submitted.
    NotConnected(NotConnectedError),
    /// The database rejected or failed the wrapped statement; the driver's
    /// diagnostic is carried along unchanged.
    ExecutionFailed(String),
    /// Execution succeeded but did not yield exactly one row holding exactly
    /// one text column.
    UnexpectedResultShape,
}

/// A [`QueryError`] with its diagnostic as a sequence of characters.
pub enum QueryErrorView {
    NotConnected(NotConnectedError),
    ExecutionFailed(Seq<char>),
    UnexpectedResultShape,
}

impl QueryErrorView {
    /// The text this failure is reported with.
    pub open spec fn message_text(self) -> Seq<char> {
        match self {
            QueryErrorView::NotConnected(reason) => reason.message_text(),
            QueryErrorView::ExecutionFailed(diagnostic) => diagnostic,
            QueryErrorView::UnexpectedResultShape => UNEXPECTED_SHAPE_MESSAGE@,
        }
    }
}

impl View for QueryError {
    type V = QueryErrorView;

    open spec fn view(&self) -> QueryErrorView {
        match self {
            QueryError::NotConnected(reason) => QueryErrorView::NotConnected(*reason),
            QueryError::ExecutionFailed(diagnostic) => QueryErrorView::ExecutionFailed(
                diagnostic@,
            ),
            QueryError::UnexpectedResultShape => QueryErrorView::UnexpectedResultShape,
        }
    }
}

impl QueryError {
    /// The text this failure is reported with.
    pub fn message(&self) -> (text: String)
        ensures
            text@ == self@.message_text(),
    {
        match self {
            QueryError::NotConnected(reason) => reason.message(),
            QueryError::ExecutionFailed(diagnostic) => diagnostic.clone(),
            QueryError::UnexpectedResultShape => String::from_str(UNEXPECTED_SHAPE_MESSAGE),
        }
    }
}

} // verus!
