use query_proxy::statement::{
    record_for, wrap_query, RECORD_PREFIX, TEMPLATE_PREFIX, TEMPLATE_SUFFIX,
};

#[test]
fn wraps_a_select_in_the_template() {
    assert_eq!(
        wrap_query("SELECT 1"),
        "SELECT json_agg(row_to_json(sub))::text FROM (SELECT 1) AS sub;"
    );
}

#[test]
fn template_halves_are_fixed() {
    assert_eq!(TEMPLATE_PREFIX, "SELECT json_agg(row_to_json(sub))::text FROM (");
    assert_eq!(TEMPLATE_SUFFIX, ") AS sub;");
    assert_eq!(RECORD_PREFIX, "Executing query: ");
}

#[test]
fn wraps_the_empty_text() {
    assert_eq!(
        wrap_query(""),
        "SELECT json_agg(row_to_json(sub))::text FROM () AS sub;"
    );
}

#[test]
fn wraps_a_statement_that_is_no_select() {
    assert_eq!(
        wrap_query("DROP TABLE users"),
        "SELECT json_agg(row_to_json(sub))::text FROM (DROP TABLE users) AS sub;"
    );
}

#[test]
fn embeds_quotes_and_parentheses_unescaped() {
    let sql = "SELECT ') AS sub; --' AS \"a\\b\", (1)";
    let statement = wrap_query(sql);
    assert_eq!(statement, format!("{}{}{}", TEMPLATE_PREFIX, sql, TEMPLATE_SUFFIX));
    let start = TEMPLATE_PREFIX.len();
    assert_eq!(&statement[start..start + sql.len()], sql);
    assert_eq!(statement.len(), TEMPLATE_PREFIX.len() + sql.len() + TEMPLATE_SUFFIX.len());
}

#[test]
fn embeds_text_beyond_ascii_unchanged() {
    let sql = "SELECT 'naïve ü 日本語' AS t";
    assert_eq!(
        wrap_query(sql),
        "SELECT json_agg(row_to_json(sub))::text FROM (SELECT 'naïve ü 日本語' AS t) AS sub;"
    );
}

#[test]
fn different_sql_gives_different_statements() {
    assert_ne!(wrap_query("SELECT 1"), wrap_query("SELECT 1 "));
    assert_ne!(wrap_query("a"), wrap_query("A"));
}

#[test]
fn record_holds_the_whole_statement() {
    let statement = wrap_query("SELECT 1");
    assert_eq!(
        record_for(&statement),
        "Executing query: SELECT json_agg(row_to_json(sub))::text FROM (SELECT 1) AS sub;"
    );
}
