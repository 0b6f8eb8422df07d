//! How several memos become one: the rules for the name, the content and
//! the label of the merged record.

use vstd::prelude::*;
use vstd::string::StringExecFns;
use crate::record::{contents_of, names_of, opt_view, texts, views, Record, RecordView};
use crate::table::name_set;
use crate::text::{join, join_strings};

verus! {

/// The label that stands for "no classification".
pub open spec fn unknown_label() -> Seq<char> {
    "unknown"@
}

/// What goes between the names of the merged records.
pub open spec fn name_separator() -> Seq<char> {
    ","@
}

/// What goes between the contents of the merged records: a blank line.
pub open spec fn content_separator() -> Seq<char> {
    "\n\n"@
}

/// A label that says something: present, and not the one that stands for
/// "no classification".
pub open spec fn is_real_label(label: Option<Seq<char>>) -> bool {
    label matches Some(l) && l != unknown_label()
}

/// The label of the first record that has a real one; the label for "no
/// classification" where none has.
pub open spec fn first_label(rows: Seq<RecordView>) -> Seq<char>
    decreases rows.len(),
{
    if rows.len() == 0 {
        unknown_label()
    } else if is_real_label(rows[0].label) {
        rows[0].label->0
    } else {
        first_label(rows.drop_first())
    }
}

/// The record that takes the place of `rows`: their names joined by a
/// comma, their contents joined by a blank line, and their first real label.
pub open spec fn merged(rows: Seq<RecordView>) -> RecordView {
    RecordView {
        name: join(names_of(rows), name_separator()),
        content: join(contents_of(rows), content_separator()),
        label: Some(first_label(rows)),
    }
}

/// Where no record has a real label, the merged label is the one for "no
/// classification".
pub proof fn lemma_first_label_none(rows: Seq<RecordView>)
    requires
        forall|i: int| 0 <= i < rows.len() ==> !is_real_label(#[trigger] rows[i].label),
    ensures
        first_label(rows) == unknown_label(),
    decreases rows.len(),
{
    if rows.len() > 0 {
        assert(!is_real_label(rows[0].label));
        let rest = rows.drop_first();
        assert forall|i: int| 0 <= i < rest.len() implies !is_real_label(
            #[trigger] rest[i].label,
        ) by {
            assert(rest[i] == rows[i + 1]);
        }
        lemma_first_label_none(rest);
    }
}

/// The merged label is that of record `at`, where that one is real and no
/// earlier one is.
pub proof fn lemma_first_label_at(rows: Seq<RecordView>, at: int)
    requires
        0 <= at < rows.len(),
        is_real_label(rows[at].label),
        forall|i: int| 0 <= i < at ==> !is_real_label(#[trigger] rows[i].label),
    ensures
        first_label(rows) == rows[at].label->0,
    decreases at,
{
    if at > 0 {
        assert(!is_real_label(rows[0].label));
        let rest = rows.drop_first();
        assert(rest[at - 1] == rows[at]);
        assert forall|i: int| 0 <= i < at - 1 implies !is_real_label(#[trigger] rest[i].label) by {
            assert(rest[i] == rows[i + 1]);
        }
        lemma_first_label_at(rest, at - 1);
    }
}

/// The label of the merged record.
pub fn merged_label(rows: &Vec<Record>) -> (out: String)
    ensures
        out@ == first_label(views(rows@)),
{
    let unknown = String::from_str("unknown");
    let mut i: usize = 0;
    while i < rows.len()
        invariant
            i <= rows.len(),
            unknown@ == unknown_label(),
            forall|k: int| 0 <= k < i ==> !is_real_label(#[trigger] views(rows@)[k].label),
        decreases rows.len() - i,
    {
        match &rows[i].label {
            Some(label) => {
                if *label != unknown {
                    proof {
                        lemma_first_label_at(views(rows@), i as int);
                    }
                    return label.clone();
                }
            },
            None => {},
        }
        i += 1;
    }
    proof {
        lemma_first_label_none(views(rows@));
    }
    unknown
}

/// The names of the records, in order.
fn names_in(rows: &Vec<Record>) -> (out: Vec<String>)
    ensures
        texts(out@) == names_of(views(rows@)),
{
    let mut out: Vec<String> = Vec::new();
    let mut i: usize = 0;
    while i < rows.len()
        invariant
            i <= rows.len(),
            out@.len() == i,
            forall|k: int| 0 <= k < i ==> out@[k]@ == rows@[k].name@,
        decreases rows.len() - i,
    {
        out.push(rows[i].name.clone());
        i += 1;
    }
    proof {
        assert(texts(out@) =~= names_of(views(rows@)));
    }
    out
}

/// The contents of the records, in order.
fn contents_in(rows: &Vec<Record>) -> (out: Vec<String>)
    ensures
        texts(out@) == contents_of(views(rows@)),
{
    let mut out: Vec<String> = Vec::new();
    let mut i: usize = 0;
    while i < rows.len()
        invariant
            i <= rows.len(),
            out@.len() == i,
            forall|k: int| 0 <= k < i ==> out@[k]@ == rows@[k].content@,
        decreases rows.len() - i,
    {
        out.push(rows[i].content.clone());
        i += 1;
    }
    proof {
        assert(texts(out@) =~= contents_of(views(rows@)));
    }
    out
}

/// The record that takes the place of the given ones.
pub fn merged_record(rows: &Vec<Record>) -> (r: Record)
    ensures
        r@ == merged(views(rows@)),
{
    let names = names_in(rows);
    let contents = contents_in(rows);
    let name = join_strings(&names, ",");
    let content = join_strings(&contents, "\n\n");
    let label = merged_label(rows);
    Record { name, content, label: Some(label) }
}

/// How many different names the sequence mentions.
pub open spec fn distinct_count(names: Seq<String>) -> nat {
    name_set(names).len()
}

/// Whether the sequence mentions at least two different names.
pub fn has_two_distinct(names: &Vec<String>) -> (r: bool)
    ensures
        r == (distinct_count(names@) >= 2),
{
    if names.len() == 0 {
        proof {
            assert(name_set(names@) =~= Set::empty());
        }
        return false;
    }
    let mut i: usize = 1;
    while i < names.len()
        invariant
            1 <= i <= names.len(),
            forall|k: int| 0 <= k < i ==> (#[trigger] names@[k])@ == names@[0]@,
        decreases names.len() - i,
    {
        if names[i] != names[0] {
            proof {
                let a = names@[0]@;
                let b = names@[i as int]@;
                let all = name_set(names@);
                vstd::seq_lib::seq_to_set_is_finite(texts(names@));
                assert(texts(names@)[0] == a);
                assert(texts(names@)[i as int] == b);
                assert(all.contains(a));
                assert(all.contains(b));
                let two = Set::<Seq<char>>::empty().insert(a).insert(b);
                assert(two.subset_of(all));
                vstd::set_lib::lemma_len_subset(two, all);
                assert(two.len() == 2);
            }
            return true;
        }
        i += 1;
    }
    proof {
        let a = names@[0]@;
        assert(texts(names@)[0] == a);
        assert forall|x: Seq<char>| name_set(names@).contains(x) <==> x == a by {
            if name_set(names@).contains(x) {
                let k = choose|k: int| 0 <= k < texts(names@).len() && texts(names@)[k] == x;
                assert(names@[k]@ == a);
            }
        }
        assert(name_set(names@) =~= Set::<Seq<char>>::empty().insert(a));
    }
    false
}

/// What a merge makes of the records found under `names`: nothing where
/// fewer than two different names were given, else the record that takes
/// the place of those found.
pub open spec fn merge_outcome(names: Seq<String>, rows: Seq<RecordView>) -> Option<RecordView> {
    if distinct_count(names) < 2 {
        None
    } else {
        Some(merged(rows))
    }
}

/// Decides a merge. `rows` are the records found under `names`. With
/// nothing as the answer the table is to be left alone. With a record as
/// the answer, the records of these names are to be removed and the record
/// is to be added.
pub fn merge_decision(names: &Vec<String>, rows: &Vec<Record>) -> (made: Option<Record>)
    ensures
        opt_view(made) == merge_outcome(names@, views(rows@)),
{
    if has_two_distinct(names) {
        Some(merged_record(rows))
    } else {
        None
    }
}

} // verus!
