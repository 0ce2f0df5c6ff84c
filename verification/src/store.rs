//! The boundary to SQLite: every call into `rusqlite` is made here.
//!
//! Nothing in this file is proved. Each function hands its arguments to one
//! `rusqlite` operation and hands back what came out as plain values. What a
//! statement does to the database is decided by SQLite and by whatever the
//! database file holds, so these functions promise nothing about it; the
//! engine is verified for every outcome.

use vstd::prelude::*;
use crate::engine::SearchResult;

verus! {

/// `rusqlite::Connection`, a handle to an open database, carried as it is.
#[verifier::external_type_specification]
#[verifier::external_body]
pub struct ExConnection(rusqlite::Connection);

/// `rusqlite::Statement`, a compiled statement of a connection, carried as
/// it is.
#[verifier::external_type_specification]
#[verifier::external_body]
pub struct ExStatement<'conn>(rusqlite::Statement<'conn>);

/// `rusqlite::Error`, read only through `describe` and `sqlite_code`.
#[verifier::external_type_specification]
#[verifier::external_body]
pub struct ExStoreFault(rusqlite::Error);

/// `rusqlite::Connection::open`: opens or creates the database at
/// `location`. Nothing is claimed of the outcome.
#[verifier::external_body]
pub(crate) fn open_connection(location: &str) -> (r: Result<rusqlite::Connection, rusqlite::Error>) {
    rusqlite::Connection::open(location)
}

/// `rusqlite::Connection::execute_batch`: runs the statements of `sql` in
/// turn. Nothing is claimed of the outcome.
#[verifier::external_body]
pub(crate) fn run_batch(conn: &rusqlite::Connection, sql: &str) -> (r: Result<(), rusqlite::Error>) {
    conn.execute_batch(sql)
}

/// `rusqlite::Connection::prepare`: compiles one statement. Nothing is
/// claimed of the outcome.
#[verifier::external_body]
pub(crate) fn prepare<'conn>(conn: &'conn rusqlite::Connection, sql: &str) -> (r: Result<
    rusqlite::Statement<'conn>,
    rusqlite::Error,
>) {
    conn.prepare(sql)
}

/// `rusqlite::Statement::execute`: binds `texts` and after them `numbers`, in
/// order, as the statement's parameters and runs it. The count it returns
/// is SQLite's number of changed rows; nothing is claimed of it.
#[verifier::external_body]
pub(crate) fn execute(
    stmt: &mut rusqlite::Statement<'_>,
    texts: &Vec<String>,
    numbers: &Vec<i64>,
) -> (r: Result<usize, rusqlite::Error>) {
    let texts = texts.iter().cloned().map(rusqlite::types::Value::Text);
    let numbers = numbers.iter().copied().map(rusqlite::types::Value::Integer);
    stmt.execute(rusqlite::params_from_iter(texts.chain(numbers)))
}

/// `rusqlite::Statement::query_map` on a statement that yields four text
/// columns and a real one, with `query` as its only parameter; the real
/// column is kept as its bit pattern. The rows come
/// back in the order SQLite produced them; the first row that fails ends the
/// call with its error. Nothing is claimed of which rows come.
#[verifier::external_body]
pub(crate) fn query_hits(stmt: &mut rusqlite::Statement<'_>, query: &str) -> (r: Result<
    Vec<SearchResult>,
    rusqlite::Error,
>) {
    let rows = stmt.query_map([query], |row| {
        Ok(SearchResult {
            id: row.get(0)?,
            path: row.get(1)?,
            title: row.get(2)?,
            preview: row.get(3)?,
            score_bits: row.get_ref(4)?.as_f64()?.to_bits(),
        })
    })?;
    rows.collect()
}

/// `rusqlite::Statement::query_map` on a statement that yields two integer
/// columns, with `key` as its only parameter. Nothing is claimed of which
/// rows come.
#[verifier::external_body]
pub(crate) fn query_integer_pairs(stmt: &mut rusqlite::Statement<'_>, key: &str) -> (r: Result<
    Vec<(i64, i64)>,
    rusqlite::Error,
>) {
    let rows = stmt.query_map([key], |row| Ok((row.get(0)?, row.get(1)?)))?;
    rows.collect()
}

/// The `Display` text of a `rusqlite::Error`. Nothing is claimed of it.
#[verifier::external_body]
pub(crate) fn describe(fault: &rusqlite::Error) -> (text: String) {
    fault.to_string()
}

/// Tells `rusqlite::Error::SqliteFailure` from the other variants and hands
/// out its extended result code.
#[verifier::external_body]
pub(crate) fn sqlite_code(fault: &rusqlite::Error) -> (code: Option<i32>) {
    match fault {
        rusqlite::Error::SqliteFailure(cause, _) => Some(cause.extended_code),
        _ => None,
    }
}

} // verus!
