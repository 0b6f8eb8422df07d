//! The store: the one connection to the table of memos, and the operations
//! on it.
//!
//! Every operation takes the store by `&mut`: whoever runs one holds the
//! connection alone until it returns.
//!
//! The database is outside the library, and no contract here speaks of what
//! it holds. A contract speaks of what is returned, and of the store as a
//! value: an operation that leaves the store equal to what it was has sent no
//! statement that changes the table. Rows are handed on only after they were
//! tested, so what is promised of them holds of every database.

use vstd::prelude::*;
use rusqlite::Connection;
use crate::error::MemoError;
use crate::merge::{distinct_count, has_two_distinct, merge_decision, merged};
use crate::order::{ascending, lemma_ascending_no_duplicates};
use crate::record::{names_of, views, Record, RecordView};
use crate::rows::{checked_listing, checked_selection, is_selection, name_is_free};
use crate::sql::{
    error_text, execute_delete, execute_insert, execute_update, load_array_module, query_all,
    query_named,
};
use crate::things3::{check_installed, export_answer, export_url};

verus! {

/// The one connection to the table of memos.
pub struct Store {
    conn: Connection,
}

/// The error that reports a failure of the database, in the database's own words.
fn store_error(text: String) -> (e: MemoError)
    ensures
        e == MemoError::Store(text),
{
    MemoError::Store(text)
}

/// A merge failed because this name, joined from records that were asked
/// for, is taken.
pub open spec fn merged_name_taken(names: Seq<String>, name: Seq<char>) -> bool {
    exists|rows: Seq<RecordView>| is_selection(rows, names) && name == merged(rows).name
}

/// The answer of an export is the one for records that were asked for.
pub open spec fn exported(names: Seq<String>, r: Result<String, MemoError>) -> bool {
    exists|rows: Seq<RecordView>| is_selection(rows, names) && export_answer(rows, r)
}

impl Store {
    /// The connection that the store holds.
    pub closed spec fn connection(&self) -> Connection {
        self.conn
    }

    /// Takes over an open connection and prepares it for statements that
    /// take a list of names.
    pub fn new(conn: Connection) -> (r: Result<Store, MemoError>)
        ensures
            match r {
                Ok(store) => store.connection() == conn,
                Err(e) => e is Store,
            },
    {
        match load_array_module(&conn) {
            Ok(()) => Ok(Store { conn }),
            Err(error) => Err(store_error(error_text(&error))),
        }
    }

    /// Gives the connection back.
    pub fn into_connection(self) -> (conn: Connection)
        ensures
            conn == self.connection(),
    {
        self.conn
    }

    /// All records, in ascending order of name, no name twice. The store
    /// is left as it was. An answer of the database that is not in that
    /// order is refused as a failure of the database.
    pub fn load(&mut self) -> (r: Result<Vec<Record>, MemoError>)
        ensures
            *final(self) == *old(self),
            match r {
                Ok(rows) => {
                    &&& ascending(names_of(views(rows@)))
                    &&& names_of(views(rows@)).no_duplicates()
                },
                Err(e) => e is Store,
            },
    {
        match query_all(&self.conn, "SELECT name, content, label FROM memos ORDER BY name ASC") {
            Ok(rows) => {
                proof {
                    if ascending(names_of(views(rows@))) {
                        lemma_ascending_no_duplicates(names_of(views(rows@)));
                    }
                }
                checked_listing(rows)
            },
            Err(error) => Err(store_error(error_text(&error))),
        }
    }

    /// The records of the given names, in ascending order of name, no name
    /// twice; names that the table does not hold are passed over. The
    /// store is left as it was. An answer of the database that is not in
    /// that order, or that holds a record that was not asked for, is refused
    /// as a failure of the database.
    pub fn select(&mut self, names: &Vec<String>) -> (r: Result<Vec<Record>, MemoError>)
        ensures
            *final(self) == *old(self),
            match r {
                Ok(rows) => {
                    &&& is_selection(views(rows@), names@)
                    &&& names_of(views(rows@)).no_duplicates()
                },
                Err(e) => e is Store,
            },
    {
        match query_named(
            &self.conn,
            "SELECT name, content, label FROM memos WHERE name IN rarray(?1) ORDER BY name ASC",
            names,
        ) {
            Ok(rows) => {
                proof {
                    if ascending(names_of(views(rows@))) {
                        lemma_ascending_no_duplicates(names_of(views(rows@)));
                    }
                }
                checked_selection(rows, names)
            },
            Err(error) => Err(store_error(error_text(&error))),
        }
    }

    /// Removes the records of the given names; names that the table does
    /// not hold are passed over.
    pub fn kill(&mut self, names: &Vec<String>) -> (r: Result<(), MemoError>)
        ensures
            r matches Err(e) ==> e is Store,
    {
        match execute_delete(&mut self.conn, "DELETE FROM memos WHERE name IN rarray(?1)", names) {
            Ok(_) => Ok(()),
            Err(error) => Err(store_error(error_text(&error))),
        }
    }

    /// Replaces the content of the record called `name`. A name that the
    /// table does not hold changes nothing, and is no error.
    pub fn set_content(&mut self, name: &str, new_content: &str) -> (r: Result<(), MemoError>)
        ensures
            r matches Err(e) ==> e is Store,
    {
        match execute_update(
            &mut self.conn,
            "UPDATE memos SET content = ?1 WHERE name = ?2",
            new_content,
            name,
        ) {
            Ok(_) => Ok(()),
            Err(error) => Err(store_error(error_text(&error))),
        }
    }

    /// Adds a record. The store first asks for the record of that name:
    /// where one comes back, the record is refused and the store is left as
    /// it was.
    pub fn insert(&mut self, record: &Record) -> (r: Result<(), MemoError>)
        ensures
            match r {
                Ok(()) => true,
                Err(MemoError::DuplicateName(name)) => {
                    &&& name@ == record.name@
                    &&& *final(self) == *old(self)
                },
                Err(e) => e is Store,
            },
    {
        let mut wanted: Vec<String> = Vec::new();
        wanted.push(record.name.clone());
        let found = match self.select(&wanted) {
            Ok(rows) => rows,
            Err(e) => {
                return Err(e);
            },
        };
        match name_is_free(&found, record.name.as_str()) {
            Ok(()) => {},
            Err(e) => {
                return Err(e);
            },
        }
        match execute_insert(
            &mut self.conn,
            "INSERT INTO memos (name, content, label) VALUES (?1, ?2, ?3)",
            record.name.as_str(),
            record.content.as_str(),
            &record.label,
        ) {
            Ok(_) => Ok(()),
            Err(error) => Err(store_error(error_text(&error))),
        }
    }

    /// Merges the records of the given names into one.
    ///
    /// Fewer than two different names change nothing: no statement is
    /// sent. Otherwise the store asks for the records of these names,
    /// removes them, and adds the one record made of those that came back:
    /// see [`merge_decision`]. When the name of that record is taken by a
    /// record that stays, the merge fails after the removal, and what was
    /// removed is not put back.
    pub fn merge(&mut self, names: &Vec<String>) -> (r: Result<(), MemoError>)
        ensures
            distinct_count(names@) < 2 ==> r is Ok && *final(self) == *old(self),
            match r {
                Ok(()) => true,
                Err(MemoError::DuplicateName(name)) => {
                    &&& distinct_count(names@) >= 2
                    &&& merged_name_taken(names@, name@)
                },
                Err(e) => e is Store,
            },
    {
        if !has_two_distinct(names) {
            return Ok(());
        }
        let rows = match self.select(names) {
            Ok(rows) => rows,
            Err(e) => {
                return Err(e);
            },
        };
        match merge_decision(names, &rows) {
            None => Ok(()),
            Some(made) => {
                match self.kill(names) {
                    Ok(()) => {},
                    Err(e) => {
                        return Err(e);
                    },
                }
                let r = self.insert(&made);
                proof {
                    assert(is_selection(views(rows@), names@));
                }
                r
            },
        }
    }

    /// The URL that hands the records of the given names to Things, one
    /// to-do for each, in ascending order of name: see [`export_url`]. The
    /// store is left as it was: nothing is removed once it is handed over.
    ///
    /// `installed` says whether Things was found on this machine. Where it
    /// was not, the table is not read.
    pub fn add_to_things(&mut self, names: &Vec<String>, installed: bool) -> (r: Result<
        String,
        MemoError,
    >)
        ensures
            *final(self) == *old(self),
            !installed ==> r == Err::<String, MemoError>(MemoError::ExternalAppUnavailable),
            installed ==> match r {
                Ok(_) => exported(names@, r),
                Err(MemoError::InvalidUrl) => exported(names@, r),
                Err(e) => e is Store,
            },
    {
        match check_installed(installed) {
            Ok(()) => {},
            Err(e) => {
                return Err(e);
            },
        }
        let rows = match self.select(names) {
            Ok(rows) => rows,
            Err(e) => {
                return Err(e);
            },
        };
        let r = export_url(&rows);
        proof {
            assert(is_selection(views(rows@), names@) && export_answer(views(rows@), r));
        }
        r
    }
}

} // verus!
