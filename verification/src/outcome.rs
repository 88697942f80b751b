//! What the database answered, as plain values, and the one text value that
//! is read out of it.

use vstd::prelude::*;
use vstd::string::StringExecFns;
use crate::error::{QueryError, QueryErrorView};

verus! {

/// The text returned when the aggregate is the database's null: the inner
/// query produced no rows, and there is nothing to aggregate.
pub const NULL_TEXT: &'static str = "null";

/// One column of one result row.
#[derive(Debug, PartialEq, Eq)]
pub enum Column {
    /// The database's null.
    Null,
    /// A text value.
    Text(String),
    /// A value of any type other than text.
    Other,
}

/// A [`Column`] with its text as a sequence of characters.
pub enum ColumnView {
    Null,
    Text(Seq<char>),
    Other,
}

impl View for Column {
    type V = ColumnView;

    open spec fn view(&self) -> ColumnView {
        match self {
            Column::Null => ColumnView::Null,
            Column::Text(text) => ColumnView::Text(text@),
            Column::Other => ColumnView::Other,
        }
    }
}

/// How the execution of one wrapped statement ended.
#[derive(Debug, PartialEq, Eq)]
pub enum ExecOutcome {
    /// The statement ran; these are its rows, each a list of columns.
    Rows(Vec<Vec<Column>>),
    /// The statement was rejected or failed, with the driver's diagnostic.
    Failed(String),
}

/// An [`ExecOutcome`] as sequences.
pub enum OutcomeView {
    Rows(Seq<Seq<ColumnView>>),
    Failed(Seq<char>),
}

/// The rows of a result as sequences of column views.
pub open spec fn rows_view(rows: Seq<Vec<Column>>) -> Seq<Seq<ColumnView>> {
    Seq::new(rows.len(), |i: int| Seq::new(rows[i]@.len(), |j: int| rows[i]@[j]@))
}

impl View for ExecOutcome {
    type V = OutcomeView;

    open spec fn view(&self) -> OutcomeView {
        match self {
            ExecOutcome::Rows(rows) => OutcomeView::Rows(rows_view(rows@)),
            ExecOutcome::Failed(diagnostic) => OutcomeView::Failed(diagnostic@),
        }
    }
}

/// What a query call returns for a given outcome of the execution.
///
/// A failed execution is reported with its diagnostic. A successful one must
/// consist of exactly one row with exactly one column: a text column is
/// returned as it is, a null column as [`NULL_TEXT`], and every other shape
/// is rejected.
pub open spec fn reply_for(outcome: OutcomeView) -> Result<Seq<char>, QueryErrorView> {
    match outcome {
        OutcomeView::Failed(diagnostic) => Err(QueryErrorView::ExecutionFailed(diagnostic)),
        OutcomeView::Rows(rows) => {
            if rows.len() == 1 && rows[0].len() == 1 {
                match rows[0][0] {
                    ColumnView::Text(text) => Ok(text),
                    ColumnView::Null => Ok(NULL_TEXT@),
                    ColumnView::Other => Err(QueryErrorView::UnexpectedResultShape),
                }
            } else {
                Err(QueryErrorView::UnexpectedResultShape)
            }
        },
    }
}

/// A reply with its text, or its error, as sequences of characters.
pub open spec fn reply_view(reply: Result<String, QueryError>) -> Result<
    Seq<char>,
    QueryErrorView,
> {
    match reply {
        Ok(text) => Ok(text@),
        Err(error) => Err(error@),
    }
}

/// Reads the reply of a query call out of the outcome of its execution.
pub fn extract_reply(outcome: ExecOutcome) -> (reply: Result<String, QueryError>)
    ensures
        reply_view(reply) == reply_for(outcome@),
{
    match outcome {
        ExecOutcome::Failed(diagnostic) => Err(QueryError::ExecutionFailed(diagnostic)),
        ExecOutcome::Rows(rows) => {
            let mut rows = rows;
            if rows.len() != 1 {
                return Err(QueryError::UnexpectedResultShape);
            }
            let mut row = match rows.pop() {
                Some(row) => row,
                None => {
                    return Err(QueryError::UnexpectedResultShape);
                },
            };
            if row.len() != 1 {
                return Err(QueryError::UnexpectedResultShape);
            }
            match row.pop() {
                Some(Column::Text(text)) => Ok(text),
                Some(Column::Null) => Ok(String::from_str(NULL_TEXT)),
                _ => Err(QueryError::UnexpectedResultShape),
            }
        },
    }
}

} // verus!
