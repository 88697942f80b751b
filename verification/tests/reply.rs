use query_proxy::error::{ConnectError, NotConnectedError, QueryError};
use query_proxy::outcome::{extract_reply, Column, ExecOutcome, NULL_TEXT};

fn one_cell(column: Column) -> ExecOutcome {
    ExecOutcome::Rows(vec![vec![column]])
}

#[test]
fn one_text_column_is_returned_as_it_is() {
    let text = "[{\"id\":1},{\"id\":2}]".to_string();
    assert_eq!(extract_reply(one_cell(Column::Text(text.clone()))), Ok(text));
}

#[test]
fn empty_text_is_still_text() {
    assert_eq!(extract_reply(one_cell(Column::Text(String::new()))), Ok(String::new()));
}

#[test]
fn null_aggregate_is_reported_as_null_not_as_empty_array() {
    let reply = extract_reply(one_cell(Column::Null));
    assert_eq!(reply, Ok("null".to_string()));
    assert_ne!(reply, Ok("[]".to_string()));
    assert_eq!(NULL_TEXT, "null");
}

#[test]
fn a_column_that_is_not_text_is_an_unexpected_shape() {
    assert_eq!(extract_reply(one_cell(Column::Other)), Err(QueryError::UnexpectedResultShape));
}

#[test]
fn no_rows_is_an_unexpected_shape() {
    assert_eq!(
        extract_reply(ExecOutcome::Rows(vec![])),
        Err(QueryError::UnexpectedResultShape)
    );
}

#[test]
fn a_row_without_columns_is_an_unexpected_shape() {
    assert_eq!(
        extract_reply(ExecOutcome::Rows(vec![vec![]])),
        Err(QueryError::UnexpectedResultShape)
    );
}

#[test]
fn two_rows_are_an_unexpected_shape() {
    let rows = vec![
        vec![Column::Text("[1]".to_string())],
        vec![Column::Text("[2]".to_string())],
    ];
    assert_eq!(extract_reply(ExecOutcome::Rows(rows)), Err(QueryError::UnexpectedResultShape));
}

#[test]
fn two_columns_are_an_unexpected_shape() {
    let rows = vec![vec![Column::Text("[1]".to_string()), Column::Null]];
    assert_eq!(extract_reply(ExecOutcome::Rows(rows)), Err(QueryError::UnexpectedResultShape));
}

#[test]
fn a_failed_execution_carries_the_diagnostic() {
    let diagnostic = "relation \"nonexistent_table\" does not exist".to_string();
    assert_eq!(
        extract_reply(ExecOutcome::Failed(diagnostic.clone())),
        Err(QueryError::ExecutionFailed(diagnostic))
    );
}

#[test]
fn messages_of_not_connected() {
    assert_eq!(NotConnectedError::NoHandle.message(), "No database pool");
    assert_eq!(NotConnectedError::HandleClosed.message(), "Connection closed");
    assert_eq!(
        QueryError::NotConnected(NotConnectedError::NoHandle).message(),
        "No database pool"
    );
    assert_eq!(
        QueryError::NotConnected(NotConnectedError::HandleClosed).message(),
        "Connection closed"
    );
}

#[test]
fn messages_of_query_errors() {
    assert_eq!(
        QueryError::ExecutionFailed("syntax error at or near \"DROP\"".to_string()).message(),
        "syntax error at or near \"DROP\""
    );
    assert_eq!(QueryError::UnexpectedResultShape.message(), "Unexpected result shape");
}

#[test]
fn messages_of_connect_errors() {
    assert_eq!(
        ConnectError::OpenFailed("relative URL without a base".to_string()).message(),
        "relative URL without a base"
    );
    assert_eq!(
        ConnectError::DisposalFailed("broken pipe".to_string()).message(),
        "broken pipe"
    );
}
