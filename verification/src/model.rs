//! The table as the statements of the store are meant to leave it.
//!
//! This is a model, proved of itself. Nothing here is claimed of a
//! database: what the store promises of one it tests when rows come back.
//! The model says what each operation does to a table that holds each name
//! once, given a database that does what its statements say. It is built
//! from the same pieces as the operations: the merge of the model is decided
//! by [`merge_outcome`], as the merge of the store is.

use vstd::prelude::*;
use crate::merge::merge_outcome;
use crate::record::RecordView;
use crate::table::{name_set, selected, Table};

verus! {

/// The table after the records of the given names have been removed.
pub open spec fn after_kill(table: Table, names: Seq<String>) -> Table {
    table.remove_keys(name_set(names))
}

/// The table after a record has been added: a record whose name is taken
/// is refused, and the table stays as it was.
pub open spec fn after_insert(table: Table, record: RecordView) -> Table {
    if table.contains_key(record.name) {
        table
    } else {
        table.insert(record.name, (record.content, record.label))
    }
}

/// The table after the content of `name` has been replaced: the entry, if
/// there is one, keeps its label; a name that is not there changes nothing.
pub open spec fn after_set_content(table: Table, name: Seq<char>, content: Seq<char>) -> Table {
    if table.contains_key(name) {
        table.insert(name, (content, table[name].1))
    } else {
        table
    }
}

/// The table after the records of the given names have been merged: with
/// fewer than two different names it is as it was; else the records of those
/// names are removed, and the record made of them is added.
pub open spec fn after_merge(table: Table, names: Seq<String>) -> Table {
    match merge_outcome(names, selected(table, name_set(names))) {
        None => table,
        Some(made) => after_insert(after_kill(table, names), made),
    }
}

} // verus!
