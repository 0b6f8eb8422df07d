//! What holds of the operations, whatever the table holds.
//!
//! The laws are stated over the model of the table, see [`crate::model`],
//! and over the same rules that the store runs.

use vstd::prelude::*;
use crate::merge::{
    distinct_count, first_label, is_real_label, lemma_first_label_none, merge_outcome, merged,
    unknown_label,
};
use crate::model::{after_insert, after_kill, after_merge, after_set_content};
use crate::order::name_lt;
use crate::record::{contents_of, names_of, texts, RecordView};
use crate::rows::is_selection;
use crate::table::{
    lemma_lists_is_rows_of, lemma_lists_len, lists, name_set, rows_of, selected, Table,
};
use crate::text::join;
use crate::things3::{payload_of, todo_json};

verus! {

/// No two records of a listing share a name: whatever was inserted, merged
/// or deleted before, the table holds each name once.
pub proof fn law_names_unique(rows: Seq<RecordView>, table: Table, i: int, j: int)
    requires
        lists(rows, table),
        0 <= i < rows.len(),
        0 <= j < rows.len(),
        i != j,
    ensures
        rows[i].name != rows[j].name,
{
    lemma_lists_len(rows, table);
    assert(names_of(rows)[i] != names_of(rows)[j]);
}

/// A listing is in ascending order of name.
pub proof fn law_listing_ascends(rows: Seq<RecordView>, table: Table, i: int, j: int)
    requires
        lists(rows, table),
        0 <= i < j < rows.len(),
    ensures
        name_lt(rows[i].name, rows[j].name),
{
    assert(name_lt(names_of(rows)[i], names_of(rows)[j]));
}

/// The listing does not depend on the order in which records were
/// inserted.
pub proof fn law_listing_ignores_insertion_order(table: Table, a: RecordView, b: RecordView)
    requires
        a.name != b.name,
    ensures
        rows_of(after_insert(after_insert(table, a), b)) == rows_of(
            after_insert(after_insert(table, b), a),
        ),
{
    assert(after_insert(after_insert(table, a), b) =~= after_insert(after_insert(table, b), a));
}

/// The records that the table holds under the given names are an answer
/// that the store accepts for these names.
pub proof fn law_selection_is_accepted(table: Table, names: Seq<String>, rows: Seq<RecordView>)
    requires
        lists(rows, table.restrict(name_set(names))),
    ensures
        is_selection(rows, names),
{
    assert forall|i: int| 0 <= i < rows.len() implies name_set(names).contains(
        (#[trigger] rows[i]).name,
    ) by {
        assert(names_of(rows)[i] == rows[i].name);
        assert(names_of(rows).contains(rows[i].name));
        assert(table.restrict(name_set(names)).dom().contains(rows[i].name));
    }
}

/// Removing records adds no name, and leaves every record that stays as it
/// was.
pub proof fn law_kill_adds_nothing(table: Table, names: Seq<String>, name: Seq<char>)
    requires
        after_kill(table, names).contains_key(name),
    ensures
        table.contains_key(name),
        !name_set(names).contains(name),
        after_kill(table, names)[name] == table[name],
{
}

/// Replacing the content of a record changes no name and no label.
pub proof fn law_set_content_keeps_names(table: Table, name: Seq<char>, content: Seq<char>)
    ensures
        after_set_content(table, name, content).dom() == table.dom(),
        forall|other: Seq<char>| #[trigger]
            table.contains_key(other) ==> after_set_content(table, name, content)[other].1
                == table[other].1,
{
    assert(after_set_content(table, name, content).dom() =~= table.dom());
}

/// Merging fewer than two different names changes nothing.
pub proof fn law_merge_needs_two(table: Table, names: Seq<String>)
    requires
        distinct_count(names) < 2,
    ensures
        after_merge(table, names) == table,
{
}

/// A merge leaves every record alone whose name was not given.
pub proof fn law_merge_keeps_the_rest(table: Table, names: Seq<String>, name: Seq<char>)
    requires
        table.contains_key(name),
        !name_set(names).contains(name),
    ensures
        after_merge(table, names).contains_key(name),
        after_merge(table, names)[name] == table[name],
{
}

/// Merging `n` records, `n` at least two, leaves one record in their place:
/// a listing of the table is `n - 1` records shorter than it was before,
/// the table holds the merged record, and of the names given it holds no
/// other.
///
/// The names are different from each other and all in the table, and the
/// merge went through: the name of the merged record was not taken by a
/// record that stayed.
pub proof fn law_merge_count(
    table: Table,
    names: Seq<String>,
    before: Seq<RecordView>,
    after: Seq<RecordView>,
)
    requires
        names.len() >= 2,
        texts(names).no_duplicates(),
        forall|i: int| 0 <= i < names.len() ==> table.contains_key(#[trigger] names[i]@),
        !after_kill(table, names).contains_key(merged(selected(table, name_set(names))).name),
        lists(before, table),
        lists(after, after_merge(table, names)),
    ensures
        after.len() == before.len() - (names.len() - 1),
        after_merge(table, names).contains_key(merged(selected(table, name_set(names))).name),
        after_merge(table, names)[merged(selected(table, name_set(names))).name] == (
            merged(selected(table, name_set(names))).content,
            merged(selected(table, name_set(names))).label,
        ),
        forall|i: int|
            0 <= i < names.len() && names[i]@ != merged(selected(table, name_set(names))).name
                ==> !after_merge(table, names).contains_key(#[trigger] names[i]@),
{
    let wanted = name_set(names);
    let made = merged(selected(table, wanted));
    lemma_lists_len(before, table);
    lemma_lists_len(after, after_merge(table, names));
    texts(names).unique_seq_to_set();
    vstd::seq_lib::seq_to_set_is_finite(texts(names));
    assert(merge_outcome(names, selected(table, wanted)) == Some(made));
    assert forall|k: Seq<char>| #[trigger] wanted.contains(k) implies table.contains_key(k) by {
        let i = choose|i: int| 0 <= i < texts(names).len() && texts(names)[i] == k;
        assert(table.contains_key(names[i]@));
    }
    table.lemma_remove_keys_len(wanted);
    let rest = table.remove_keys(wanted);
    assert(rest.dom().subset_of(table.dom()));
    vstd::set_lib::lemma_set_subset_finite(table.dom(), rest.dom());
    assert(after_merge(table, names).dom() =~= rest.dom().insert(made.name));
    assert forall|i: int| 0 <= i < names.len() && names[i]@ != made.name implies !after_merge(
        table,
        names,
    ).contains_key(#[trigger] names[i]@) by {
        assert(texts(names)[i] == names[i]@);
        assert(wanted.contains(names[i]@));
    }
}

/// Merging names of which the table holds only one changes nothing, where
/// the record of that name has a label.
///
/// A record without a label does not stay as it was: it comes back
/// labelled as unclassified.
pub proof fn law_merge_skips_missing(table: Table, names: Seq<String>, present: Seq<char>)
    requires
        name_set(names).contains(present),
        table.contains_key(present),
        table[present].1 is Some,
        forall|other: Seq<char>|
            #[trigger] name_set(names).contains(other) && other != present
                ==> !table.contains_key(other),
    ensures
        after_merge(table, names) == table,
{
    let wanted = name_set(names);
    let row = RecordView { name: present, content: table[present].0, label: table[present].1 };
    let rows = seq![row];
    let held = table.restrict(wanted);
    assert(names_of(rows) =~= seq![present]);
    assert(held.dom() =~= set![present]);
    assert(names_of(rows).to_set() =~= set![present]) by {
        assert(names_of(rows)[0] == present);
        assert forall|k: Seq<char>| names_of(rows).to_set().contains(k) <==> k == present by {
            if k == present {
                assert(names_of(rows).contains(k));
            }
        }
    }
    assert(lists(rows, held));
    lemma_lists_is_rows_of(rows, held);
    assert(selected(table, wanted) == rows);
    assert(join(names_of(rows), crate::merge::name_separator()) == present);
    assert(contents_of(rows) =~= seq![row.content]);
    assert(join(contents_of(rows), crate::merge::content_separator()) == row.content);
    assert(first_label(rows) == row.label->0) by {
        if is_real_label(row.label) {
        } else {
            assert(rows.drop_first().len() == 0);
            assert(first_label(rows.drop_first()) == unknown_label());
        }
    }
    assert(after_merge(table, names) =~= table);
}

/// Merging records that have no real label gives the label for "no
/// classification", never an absent one.
pub proof fn law_merge_without_labels(rows: Seq<RecordView>)
    requires
        forall|i: int| 0 <= i < rows.len() ==> !is_real_label(#[trigger] rows[i].label),
    ensures
        merged(rows).label == Some(unknown_label()),
{
    lemma_first_label_none(rows);
}

/// What is handed to the task manager depends on the contents of the
/// records alone: their names and labels are not in it.
pub proof fn law_payload_ignores_names_and_labels(a: Seq<RecordView>, b: Seq<RecordView>)
    requires
        a.len() == b.len(),
        forall|i: int| 0 <= i < a.len() ==> (#[trigger] a[i]).content == b[i].content,
    ensures
        payload_of(a) == payload_of(b),
{
    assert(Seq::new(a.len(), |i: int| todo_json(a[i].content, None)) =~= Seq::new(
        b.len(),
        |i: int| todo_json(b[i].content, None),
    )) by {
        assert forall|i: int| 0 <= i < a.len() implies todo_json(a[i].content, None) == todo_json(
            b[i].content,
            None,
        ) by {
            assert(a[i].content == b[i].content);
        }
    }
}

} // verus!
