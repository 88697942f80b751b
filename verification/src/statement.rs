//! The fixed envelope that turns caller SQL into one JSON-text aggregate.

use vstd::prelude::*;
use vstd::string::StringExecFns;

verus! {

/// Everything of the wrapped statement that precedes the caller's SQL.
pub const TEMPLATE_PREFIX: &'static str = "SELECT json_agg(row_to_json(sub))::text FROM (";

/// Everything of the wrapped statement that follows the caller's SQL.
pub const TEMPLATE_SUFFIX: &'static str = ") AS sub;";

/// What precedes the wrapped statement in the observability record.
pub const RECORD_PREFIX: &'static str = "Executing query: ";

/// The wrapped statement for the raw query text `sql`: the template with
/// `sql` in the place of its one hole, character for character.
pub open spec fn wrapped_statement(sql: Seq<char>) -> Seq<char> {
    TEMPLATE_PREFIX@ + sql + TEMPLATE_SUFFIX@
}

/// The observability record for a statement that is about to be executed.
pub open spec fn execution_record(statement: Seq<char>) -> Seq<char> {
    RECORD_PREFIX@ + statement
}

/// Wraps the caller's SQL in the aggregation template. The text is neither
/// inspected nor escaped: whatever the caller sent is embedded as it stands.
///
/// This is a decision about trust, not an oversight. The caller is the one
/// local user of the tool and may run any statement anyway. Where SQL comes
/// from anyone else, it must not reach this function.
pub fn wrap_query(sql: &str) -> (statement: String)
    ensures
        statement@ == wrapped_statement(sql@),
{
    let mut statement = String::from_str(TEMPLATE_PREFIX);
    statement.append(sql);
    statement.append(TEMPLATE_SUFFIX);
    statement
}

/// Builds the record that is emitted before `statement` is executed.
pub fn record_for(statement: &str) -> (record: String)
    ensures
        record@ == execution_record(statement@),
{
    let mut record = String::from_str(RECORD_PREFIX);
    record.append(statement);
    record
}

} // verus!
