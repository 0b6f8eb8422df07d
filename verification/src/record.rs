//! The memo record and its mathematical view.

use vstd::prelude::*;

verus! {

/// One memo: its unique name, its text, and the label it was classified
/// under, if any.
#[derive(Debug, PartialEq, Eq)]
pub struct Record {
    pub name: String,
    pub content: String,
    pub label: Option<String>,
}

/// What a [`Record`] holds, as plain sequences of characters.
pub ghost struct RecordView {
    pub name: Seq<char>,
    pub content: Seq<char>,
    pub label: Option<Seq<char>>,
}

/// The characters of an optional string.
pub open spec fn opt_text(s: Option<String>) -> Option<Seq<char>> {
    match s {
        Some(t) => Some(t@),
        None => None,
    }
}

impl View for Record {
    type V = RecordView;

    open spec fn view(&self) -> RecordView {
        RecordView { name: self.name@, content: self.content@, label: opt_text(self.label) }
    }
}

/// The view of a record that may be absent.
pub open spec fn opt_view(r: Option<Record>) -> Option<RecordView> {
    match r {
        Some(record) => Some(record@),
        None => None,
    }
}

/// The views of a sequence of records, in the same order.
pub open spec fn views(rows: Seq<Record>) -> Seq<RecordView> {
    Seq::new(rows.len(), |i: int| rows[i]@)
}

/// The characters of each string of a sequence, in the same order.
pub open spec fn texts(names: Seq<String>) -> Seq<Seq<char>> {
    Seq::new(names.len(), |i: int| names[i]@)
}

/// The names of a sequence of records.
pub open spec fn names_of(rows: Seq<RecordView>) -> Seq<Seq<char>> {
    Seq::new(rows.len(), |i: int| rows[i].name)
}

/// The contents of a sequence of records.
pub open spec fn contents_of(rows: Seq<RecordView>) -> Seq<Seq<char>> {
    Seq::new(rows.len(), |i: int| rows[i].content)
}

impl Record {
    /// A record made of the three given parts.
    pub fn new(name: String, content: String, label: Option<String>) -> (r: Record)
        ensures
            r.name == name,
            r.content == content,
            r.label == label,
    {
        Record { name, content, label }
    }
}

} // verus!
