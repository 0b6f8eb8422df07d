//! The statements that the store sends to SQLite.
//!
//! Nothing in this file is proved: it is where the library meets rusqlite.
//! Each function below sends one statement. The statement is handed in by
//! the caller and fixed by `requires`, so that the text in the contract is
//! the text that is sent.
//!
//! Nothing is claimed of what a statement does or answers. The database is
//! a file that other connections may write to, and what it holds is not
//! known here. A query takes the connection by `&`, a statement that
//! changes the table by `&mut`: to Verus the connection is then a value that
//! a query leaves alone and a change may replace by any other. What the
//! store promises of rows it tests itself, in [`crate::rows`].

use vstd::prelude::*;
use std::rc::Rc;
use rusqlite::types::Value;
use rusqlite::Connection;
use crate::record::Record;

verus! {

#[verifier::external_type_specification]
#[verifier::external_body]
pub struct ExConnection(rusqlite::Connection);

#[verifier::external_type_specification]
#[verifier::external_body]
pub struct ExSqlError(rusqlite::Error);

/// The query that lists every memo.
pub open spec fn select_all_sql() -> Seq<char> {
    "SELECT name, content, label FROM memos ORDER BY name ASC"@
}

/// The query that lists the memos of the given names.
pub open spec fn select_named_sql() -> Seq<char> {
    "SELECT name, content, label FROM memos WHERE name IN rarray(?1) ORDER BY name ASC"@
}

/// The statement that deletes the memos of the given names.
pub open spec fn delete_sql() -> Seq<char> {
    "DELETE FROM memos WHERE name IN rarray(?1)"@
}

/// The statement that adds one memo.
pub open spec fn insert_sql() -> Seq<char> {
    "INSERT INTO memos (name, content, label) VALUES (?1, ?2, ?3)"@
}

/// The statement that replaces the content of one memo.
pub open spec fn update_sql() -> Seq<char> {
    "UPDATE memos SET content = ?1 WHERE name = ?2"@
}

/// `rusqlite::vtab::array::load_module`: registers the table-valued function
/// `rarray` on the connection, which the statements that take a list of
/// names use. Nothing is claimed of the result.
#[verifier::external_body]
pub(crate) fn load_array_module(conn: &Connection) -> (r: Result<(), rusqlite::Error>) {
    rusqlite::vtab::array::load_module(conn)
}

/// `Connection::prepare` and `Statement::query_and_then` of rusqlite, on the
/// query that lists every memo; each row is read as a record, and the first
/// row that cannot be read ends the query with its error. Nothing is
/// claimed of the rows.
#[verifier::external_body]
pub(crate) fn query_all(conn: &Connection, sql: &str) -> (r: Result<Vec<Record>, rusqlite::Error>)
    requires
        sql@ == select_all_sql(),
{
    let mut statement = conn.prepare(sql)?;
    let rows = statement.query_and_then((), |row| {
        Ok::<Record, rusqlite::Error>(Record::new(row.get(0)?, row.get(1)?, row.get(2)?))
    })?;
    rows.collect()
}

/// `Connection::prepare` and `Statement::query_and_then` of rusqlite, on the
/// query that lists the memos of the given names, which are bound as one
/// `rarray` parameter; each row is read as a record, and the first row that
/// cannot be read ends the query with its error. Nothing is claimed of the
/// rows.
#[verifier::external_body]
pub(crate) fn query_named(conn: &Connection, sql: &str, names: &Vec<String>) -> (r: Result<
    Vec<Record>,
    rusqlite::Error,
>)
    requires
        sql@ == select_named_sql(),
{
    let wanted: Vec<Value> = names.iter().map(|name| Value::from(name.clone())).collect();
    let mut statement = conn.prepare(sql)?;
    let rows = statement.query_and_then([Rc::new(wanted)], |row| {
        Ok::<Record, rusqlite::Error>(Record::new(row.get(0)?, row.get(1)?, row.get(2)?))
    })?;
    rows.collect()
}

/// `Connection::execute` of rusqlite, on the statement that deletes the
/// memos of the given names, which are bound as one `rarray` parameter.
/// Nothing is claimed of the result.
#[verifier::external_body]
pub(crate) fn execute_delete(conn: &mut Connection, sql: &str, names: &Vec<String>) -> (r: Result<
    usize,
    rusqlite::Error,
>)
    requires
        sql@ == delete_sql(),
{
    let unwanted: Vec<Value> = names.iter().map(|name| Value::from(name.clone())).collect();
    conn.execute(sql, [Rc::new(unwanted)])
}

/// `Connection::execute` of rusqlite, on the statement that adds one memo;
/// an absent label is bound as null. Nothing is claimed of the result.
#[verifier::external_body]
pub(crate) fn execute_insert(
    conn: &mut Connection,
    sql: &str,
    name: &str,
    content: &str,
    label: &Option<String>,
) -> (r: Result<usize, rusqlite::Error>)
    requires
        sql@ == insert_sql(),
{
    conn.execute(sql, (name, content, label))
}

/// `Connection::execute` of rusqlite, on the statement that replaces the
/// content of one memo. Nothing is claimed of the result.
#[verifier::external_body]
pub(crate) fn execute_update(conn: &mut Connection, sql: &str, content: &str, name: &str) -> (r:
    Result<usize, rusqlite::Error>)
    requires
        sql@ == update_sql(),
{
    conn.execute(sql, [content, name])
}

/// The `Display` text of a `rusqlite::Error`. Nothing is claimed of it.
#[verifier::external_body]
pub(crate) fn error_text(error: &rusqlite::Error) -> (out: String) {
    error.to_string()
}

} // verus!
