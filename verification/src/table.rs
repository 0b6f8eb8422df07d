//! The table of memos as a mathematical value, and what it means for a
//! sequence of records to list it.

use vstd::prelude::*;
use crate::order::{
    ascending, lemma_ascending_no_duplicates, lemma_name_lt_irreflexive,
    lemma_name_lt_transitive, name_lt,
};
use crate::record::{names_of, texts, RecordView};

verus! {

/// The content of the table: each name with the content and the label
/// stored under it.
pub type Table = Map<Seq<char>, (Seq<char>, Option<Seq<char>>)>;

/// The names that a sequence of strings mentions.
pub open spec fn name_set(names: Seq<String>) -> Set<Seq<char>> {
    texts(names).to_set()
}

/// `rows` lists `table`: every entry once, as it is stored, in ascending
/// order of name.
pub open spec fn lists(rows: Seq<RecordView>, table: Table) -> bool {
    &&& ascending(names_of(rows))
    &&& names_of(rows).to_set() == table.dom()
    &&& forall|i: int|
        0 <= i < rows.len() ==> table[(#[trigger] rows[i]).name] == (rows[i].content, rows[i].label)
}

/// The listing of a table, where it has one.
pub open spec fn rows_of(table: Table) -> Seq<RecordView> {
    choose|rows: Seq<RecordView>| lists(rows, table)
}

/// The records stored under the given names, in ascending order of name.
pub open spec fn selected(table: Table, names: Set<Seq<char>>) -> Seq<RecordView> {
    rows_of(table.restrict(names))
}

/// The first name of an ascending sequence occurs nowhere in the rest.
proof fn lemma_tail_set(a: Seq<Seq<char>>)
    requires
        ascending(a),
        a.len() > 0,
    ensures
        ascending(a.drop_first()),
        a.drop_first().to_set() == a.to_set().remove(a[0]),
{
    let t = a.drop_first();
    assert forall|i: int, j: int| 0 <= i < j < t.len() implies name_lt(
        #[trigger] t[i],
        #[trigger] t[j],
    ) by {
        assert(name_lt(a[i + 1], a[j + 1]));
    }
    lemma_ascending_no_duplicates(a);
    assert forall|x: Seq<char>| t.to_set().contains(x) <==> a.to_set().remove(a[0]).contains(
        x,
    ) by {
        if t.contains(x) {
            let i = choose|i: int| 0 <= i < t.len() && t[i] == x;
            assert(a[i + 1] == x);
        }
        if a.contains(x) && x != a[0] {
            let i = choose|i: int| 0 <= i < a.len() && a[i] == x;
            assert(t[i - 1] == x);
        }
    }
    assert(t.to_set() =~= a.to_set().remove(a[0]));
}

/// Two ascending sequences that hold the same names are the same sequence.
pub proof fn lemma_ascending_same_names(a: Seq<Seq<char>>, b: Seq<Seq<char>>)
    requires
        ascending(a),
        ascending(b),
        a.to_set() == b.to_set(),
    ensures
        a == b,
    decreases a.len(),
{
    lemma_ascending_no_duplicates(a);
    lemma_ascending_no_duplicates(b);
    a.unique_seq_to_set();
    b.unique_seq_to_set();
    if a.len() == 0 {
        assert(a =~= b);
    } else {
        assert(a.to_set().contains(a[0])) by {
            assert(a.contains(a[0]));
        }
        assert(b.to_set().contains(b[0])) by {
            assert(b.contains(b[0]));
        }
        assert(b.contains(a[0]));
        assert(a.contains(b[0]));
        let j = choose|j: int| 0 <= j < b.len() && b[j] == a[0];
        let k = choose|k: int| 0 <= k < a.len() && a[k] == b[0];
        if j > 0 && k > 0 {
            assert(name_lt(a[0], a[k]));
            assert(name_lt(b[0], b[j]));
            lemma_name_lt_transitive(a[0], b[0], a[0]);
            lemma_name_lt_irreflexive(a[0]);
        }
        assert(a[0] == b[0]);
        lemma_tail_set(a);
        lemma_tail_set(b);
        lemma_ascending_same_names(a.drop_first(), b.drop_first());
        assert(a =~= seq![a[0]] + a.drop_first());
        assert(b =~= seq![b[0]] + b.drop_first());
    }
}

/// A table has at most one listing.
pub proof fn lemma_lists_unique(r1: Seq<RecordView>, r2: Seq<RecordView>, table: Table)
    requires
        lists(r1, table),
        lists(r2, table),
    ensures
        r1 == r2,
{
    lemma_ascending_same_names(names_of(r1), names_of(r2));
    assert(r1.len() == names_of(r1).len());
    assert(r2.len() == names_of(r2).len());
    assert forall|i: int| 0 <= i < r1.len() implies r1[i] == r2[i] by {
        assert(names_of(r1)[i] == names_of(r2)[i]);
        assert(r1[i].name == r2[i].name);
        assert(table[r1[i].name] == (r1[i].content, r1[i].label));
        assert(table[r2[i].name] == (r2[i].content, r2[i].label));
    }
    assert(r1 =~= r2);
}

/// A sequence that lists a table is the table's listing.
pub proof fn lemma_lists_is_rows_of(rows: Seq<RecordView>, table: Table)
    requires
        lists(rows, table),
    ensures
        rows == rows_of(table),
{
    lemma_lists_unique(rows, rows_of(table), table);
}

/// A table that has a listing is finite, and holds as many entries as the
/// listing has records.
pub proof fn lemma_lists_len(rows: Seq<RecordView>, table: Table)
    requires
        lists(rows, table),
    ensures
        table.dom().finite(),
        table.dom().len() == rows.len(),
        names_of(rows).no_duplicates(),
{
    lemma_ascending_no_duplicates(names_of(rows));
    names_of(rows).unique_seq_to_set();
    vstd::seq_lib::seq_to_set_is_finite(names_of(rows));
}

} // verus!
