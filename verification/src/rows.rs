//! What the store asks of the rows that a query hands back, and how it
//! tests them.
//!
//! The database is outside the library, and nothing is taken on trust of
//! what it answers. Rows are handed on only when they are in ascending order
//! of name, each name once, and, for a query by names, when each row bears a
//! name that was asked for.

use vstd::prelude::*;
use vstd::string::StringExecFns;
use crate::error::MemoError;
use crate::order::{ascending, chars_before, chars_of, lemma_neighbours_ascend, name_lt};
use crate::record::{names_of, texts, views, Record, RecordView};
use crate::table::name_set;

verus! {

/// Every record bears one of the given names.
pub open spec fn among(rows: Seq<RecordView>, names: Seq<String>) -> bool {
    forall|i: int| 0 <= i < rows.len() ==> name_set(names).contains((#[trigger] rows[i]).name)
}

/// What is asked of the answer to a query by names: ascending order of
/// name, and no record that was not asked for.
pub open spec fn is_selection(rows: Seq<RecordView>, names: Seq<String>) -> bool {
    ascending(names_of(rows)) && among(rows, names)
}

/// The text of the error for rows that are not in ascending order of name.
pub open spec fn disorder_text() -> Seq<char> {
    "The memos did not come back in ascending order of name"@
}

/// The text of the error for a row that was not asked for.
pub open spec fn stranger_text() -> Seq<char> {
    "A memo came back that was not asked for"@
}

/// The answer is refused, as a failure of the database, with this text.
pub open spec fn refused(r: Result<Vec<Record>, MemoError>, text: Seq<char>) -> bool {
    r matches Err(MemoError::Store(said)) && said@ == text
}

/// Whether the records are in ascending order of name, each name once.
pub fn ascending_names(rows: &Vec<Record>) -> (ok: bool)
    ensures
        ok == ascending(names_of(views(rows@))),
{
    if rows.len() == 0 {
        return true;
    }
    let ghost names = names_of(views(rows@));
    let mut last = chars_of(rows[0].name.as_str());
    let mut i: usize = 1;
    while i < rows.len()
        invariant
            1 <= i <= rows.len(),
            names == names_of(views(rows@)),
            last@ == names[i - 1],
            forall|k: int| 0 <= k < i - 1 ==> name_lt(#[trigger] names[k], names[k + 1]),
        decreases rows.len() - i,
    {
        let next = chars_of(rows[i].name.as_str());
        if !chars_before(&last, &next) {
            proof {
                assert(next@ == names[i as int]);
                assert(!name_lt(names[i - 1], names[i as int]));
            }
            return false;
        }
        last = next;
        i += 1;
    }
    proof {
        lemma_neighbours_ascend(names);
    }
    true
}

/// Whether `name` is one of `names`.
pub fn name_in(name: &String, names: &Vec<String>) -> (found: bool)
    ensures
        found == name_set(names@).contains(name@),
{
    let mut j: usize = 0;
    while j < names.len()
        invariant
            j <= names.len(),
            forall|k: int| 0 <= k < j ==> (#[trigger] names@[k])@ != name@,
        decreases names.len() - j,
    {
        if names[j] == *name {
            proof {
                assert(texts(names@)[j as int] == name@);
                assert(texts(names@).contains(name@));
            }
            return true;
        }
        j += 1;
    }
    proof {
        if texts(names@).contains(name@) {
            let k = choose|k: int| 0 <= k < texts(names@).len() && texts(names@)[k] == name@;
            assert(names@[k]@ == name@);
        }
    }
    false
}

/// Whether every record bears one of the given names.
pub fn names_among(rows: &Vec<Record>, names: &Vec<String>) -> (ok: bool)
    ensures
        ok == among(views(rows@), names@),
{
    let mut i: usize = 0;
    while i < rows.len()
        invariant
            i <= rows.len(),
            forall|k: int|
                0 <= k < i ==> name_set(names@).contains((#[trigger] views(rows@)[k]).name),
        decreases rows.len() - i,
    {
        if !name_in(&rows[i].name, names) {
            proof {
                assert(!name_set(names@).contains(views(rows@)[i as int].name));
            }
            return false;
        }
        i += 1;
    }
    true
}

/// The answer to the query for all records, handed on if it is in
/// ascending order of name, and refused if it is not.
pub fn checked_listing(rows: Vec<Record>) -> (r: Result<Vec<Record>, MemoError>)
    ensures
        ascending(names_of(views(rows@))) ==> r == Ok::<Vec<Record>, MemoError>(rows),
        !ascending(names_of(views(rows@))) ==> refused(r, disorder_text()),
{
    if ascending_names(&rows) {
        Ok(rows)
    } else {
        Err(MemoError::Store(String::from_str(
            "The memos did not come back in ascending order of name",
        )))
    }
}

/// The answer to a query by names, handed on if it is in ascending order
/// of name and holds only what was asked for, and refused if it is not.
pub fn checked_selection(rows: Vec<Record>, names: &Vec<String>) -> (r: Result<
    Vec<Record>,
    MemoError,
>)
    ensures
        is_selection(views(rows@), names@) ==> r == Ok::<Vec<Record>, MemoError>(rows),
        !ascending(names_of(views(rows@))) ==> refused(r, disorder_text()),
        ascending(names_of(views(rows@))) && !among(views(rows@), names@) ==> refused(
            r,
            stranger_text(),
        ),
{
    if !ascending_names(&rows) {
        Err(MemoError::Store(String::from_str(
            "The memos did not come back in ascending order of name",
        )))
    } else if !names_among(&rows, names) {
        Err(MemoError::Store(String::from_str("A memo came back that was not asked for")))
    } else {
        Ok(rows)
    }
}

/// The name is refused as taken.
pub open spec fn taken(r: Result<(), MemoError>, name: Seq<char>) -> bool {
    r matches Err(MemoError::DuplicateName(said)) && said@ == name
}

/// Decides whether a record may be added under `name`. `found` are the
/// records that came back when the one of that name was asked for: where
/// there is none the name is free, else it is refused as taken.
pub fn name_is_free(found: &Vec<Record>, name: &str) -> (r: Result<(), MemoError>)
    ensures
        found@.len() == 0 ==> r is Ok,
        found@.len() > 0 ==> taken(r, name@),
{
    if found.len() == 0 {
        Ok(())
    } else {
        Err(MemoError::DuplicateName(String::from_str(name)))
    }
}

} // verus!
