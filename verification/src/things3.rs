//! Handing memos to the Things task manager.
//!
//! Things takes new items as a JSON array in the query of a URL of its own
//! scheme. This module turns records into to-dos, writes the array, and
//! builds the URL. Opening the URL is left to the caller.
//!
//! Two crates do what is not written here: serde_json quotes each string,
//! and url encodes the query. Their results are named, not spelled out:
//! [`json_string`] and [`url_with_pair`].

use vstd::prelude::*;
use vstd::string::StringExecFns;
use url::Url;
use crate::error::MemoError;
use crate::record::{opt_text, texts, views, Record, RecordView};
use crate::text::{join, join_strings};

verus! {

/// A to-do: a title, and notes if there are any.
#[derive(Debug, PartialEq, Eq)]
pub struct Todo {
    pub title: String,
    pub notes: Option<String>,
}

/// What Things can be handed. There is one kind today; the JSON form of
/// each kind carries its own tag, so that more can follow.
#[derive(Debug, PartialEq, Eq)]
pub enum Item {
    Todo(Todo),
}

/// The JSON string literal for `text`, quotes included, as serde_json writes
/// it.
pub uninterp spec fn json_string(text: Seq<char>) -> Seq<char>;

/// What the url crate makes of `url` when the pair `key`, `value` is added
/// to the end of its query: nothing where `url` is no URL.
pub uninterp spec fn url_with_pair(url: Seq<char>, key: Seq<char>, value: Seq<char>) -> Option<
    Seq<char>,
>;

/// The longest text, in bytes, that is handed to the url crate as a URL:
/// 16 MiB. That is far more than one program can hand to another as an
/// argument, and far less than the 32 bits in which the crate keeps
/// positions within a URL, also when the URL grows as it is written out.
pub const URL_LIMIT: usize = 0x100_0000;

/// Whether a text is short enough to be handed on as a URL.
pub open spec fn fits_url(text: Seq<char>) -> bool {
    vstd::utf8::encode_utf8(text).len() <= URL_LIMIT
}

/// `serde_json::to_string` on a string slice. Claimed: the result is the
/// JSON string literal for the text, which depends on the text alone.
/// Serialising a string slice into memory has no way to fail.
#[verifier::external_body]
pub(crate) fn quote(text: &str) -> (out: String)
    ensures
        out@ == json_string(text@),
{
    serde_json::to_string(text).expect("a string has a JSON form")
}

/// `Url::query_pairs_mut` of the url crate and `append_pair` on what it
/// returns, on the URL that `Url::parse` makes of `url`; the result is the
/// URL written out again. Claimed: it depends on the three texts alone. The
/// bounds keep the URL, also with the pair added, within the 32 bits in
/// which the crate keeps positions.
#[verifier::external_body]
pub(crate) fn append_pair(url: &str, key: &str, value: &str) -> (out: Option<String>)
    requires
        fits_url(url@),
        fits_url(key@),
        fits_url(value@),
    ensures
        opt_text(out) == url_with_pair(url@, key@, value@),
{
    let mut url = Url::parse(url).ok()?;
    url.query_pairs_mut().append_pair(key, value);
    Some(url.into())
}

/// The JSON object for a to-do, given the JSON of its title and of its
/// notes: the tag `to-do` under `type`, and under `attributes` the title and
/// the notes, `null` where there are none.
pub open spec fn todo_object_text(title: Seq<char>, notes: Option<Seq<char>>) -> Seq<char> {
    "{\"type\":\"to-do\",\"attributes\":{\"title\":"@ + title + ",\"notes\":"@ + (match notes {
        Some(text) => text,
        None => "null"@,
    }) + "}}"@
}

/// The JSON object for a to-do with this title and these notes.
pub open spec fn todo_json(title: Seq<char>, notes: Option<Seq<char>>) -> Seq<char> {
    todo_object_text(
        json_string(title),
        match notes {
            Some(text) => Some(json_string(text)),
            None => None,
        },
    )
}

/// The JSON array of the given JSON values.
pub open spec fn array_text(parts: Seq<Seq<char>>) -> Seq<char> {
    "["@ + join(parts, ","@) + "]"@
}

/// The JSON object for an item.
pub open spec fn item_json(item: Item) -> Seq<char> {
    match item {
        Item::Todo(todo) => todo_json(todo.title@, opt_text(todo.notes)),
    }
}

/// The JSON objects of the items, in order.
pub open spec fn item_jsons(items: Seq<Item>) -> Seq<Seq<char>> {
    Seq::new(items.len(), |i: int| item_json(items[i]))
}

/// The JSON array of the items.
pub open spec fn items_json(items: Seq<Item>) -> Seq<char> {
    array_text(item_jsons(items))
}

/// The to-do that a record becomes: its content is the title, and nothing
/// else of it is kept.
pub open spec fn is_todo_of(item: Item, row: RecordView) -> bool {
    item matches Item::Todo(todo) && todo.title@ == row.content && todo.notes is None
}

/// The JSON array of the to-dos that the records become.
pub open spec fn payload_of(rows: Seq<RecordView>) -> Seq<char> {
    array_text(Seq::new(rows.len(), |i: int| todo_json(rows[i].content, None)))
}

/// The URL that hands `payload` to Things and asks it to show what it
/// added: the base `things:///json`, then the pair `data` with the payload
/// as its value, then the pair `reveal`, `true`. Nothing where the payload
/// or the URL on the way is longer than [`URL_LIMIT`], or where the url
/// crate makes no URL of these.
pub open spec fn things_url_text(payload: Seq<char>) -> Option<Seq<char>> {
    if !fits_url(payload) {
        None
    } else {
        match url_with_pair("things:///json"@, "data"@, payload) {
            Some(url) => if fits_url(url) {
                url_with_pair(url, "reveal"@, "true"@)
            } else {
                None
            },
            None => None,
        }
    }
}

/// What an export answers for the records that were found: the URL for
/// their payload, or the error that says that there is none.
pub open spec fn export_answer(rows: Seq<RecordView>, r: Result<String, MemoError>) -> bool {
    match r {
        Ok(url) => things_url_text(payload_of(rows)) == Some(url@),
        Err(MemoError::InvalidUrl) => things_url_text(payload_of(rows)) is None,
        Err(_) => false,
    }
}

/// The JSON object for a to-do, given the JSON of its title and of its
/// notes.
pub fn todo_object(title: &str, notes: Option<&str>) -> (out: String)
    ensures
        out@ == todo_object_text(
            title@,
            match notes {
                Some(text) => Some(text@),
                None => None,
            },
        ),
{
    let mut out = String::from_str("{\"type\":\"to-do\",\"attributes\":{\"title\":");
    out.append(title);
    out.append(",\"notes\":");
    match notes {
        Some(text) => {
            out.append(text);
        },
        None => {
            out.append("null");
        },
    }
    out.append("}}");
    out
}

/// The JSON array of the given JSON values.
pub fn json_array(parts: &Vec<String>) -> (out: String)
    ensures
        out@ == array_text(texts(parts@)),
{
    let mut out = String::from_str("[");
    let inner = join_strings(parts, ",");
    out.append(inner.as_str());
    out.append("]");
    out
}

impl Item {
    /// The JSON object for this item: its tag under `type`, and what it
    /// holds under `attributes`.
    pub fn serialize(&self) -> (out: String)
        ensures
            out@ == item_json(*self),
    {
        match self {
            Item::Todo(todo) => {
                let title = quote(todo.title.as_str());
                match &todo.notes {
                    Some(text) => {
                        let notes = quote(text.as_str());
                        todo_object(title.as_str(), Some(notes.as_str()))
                    },
                    None => todo_object(title.as_str(), None),
                }
            },
        }
    }
}

/// The to-dos that the records become, in the same order.
pub fn to_items(rows: &Vec<Record>) -> (items: Vec<Item>)
    ensures
        items@.len() == rows@.len(),
        forall|i: int| 0 <= i < rows@.len() ==> is_todo_of(#[trigger] items@[i], rows@[i]@),
{
    let mut items: Vec<Item> = Vec::new();
    let mut i: usize = 0;
    while i < rows.len()
        invariant
            i <= rows.len(),
            items@.len() == i,
            forall|k: int| 0 <= k < i ==> is_todo_of(#[trigger] items@[k], rows@[k]@),
        decreases rows.len() - i,
    {
        items.push(Item::Todo(Todo { title: rows[i].content.clone(), notes: None }));
        i += 1;
    }
    items
}

/// The JSON array of the items.
pub fn encode_items(items: &Vec<Item>) -> (out: String)
    ensures
        out@ == items_json(items@),
{
    let mut parts: Vec<String> = Vec::new();
    let mut i: usize = 0;
    while i < items.len()
        invariant
            i <= items.len(),
            parts@.len() == i,
            forall|k: int| 0 <= k < i ==> (#[trigger] parts@[k])@ == item_json(items@[k]),
        decreases items.len() - i,
    {
        parts.push(items[i].serialize());
        i += 1;
    }
    proof {
        assert(texts(parts@) =~= item_jsons(items@));
    }
    json_array(&parts)
}

/// A short text of plain letters fits into a URL.
proof fn lemma_ascii_fits(text: &str)
    requires
        vstd::string::is_ascii(text),
        text@.len() <= URL_LIMIT,
    ensures
        fits_url(text@),
{
    vstd::string::is_ascii_spec_bytes(text);
}

/// The URL that hands `payload` to Things.
pub fn things_url(payload: &str) -> (out: Option<String>)
    ensures
        opt_text(out) == things_url_text(payload@),
{
    if payload.as_bytes().len() > URL_LIMIT {
        return None;
    }
    proof {
        reveal_strlit("things:///json");
        reveal_strlit("data");
        reveal_strlit("reveal");
        reveal_strlit("true");
        lemma_ascii_fits("things:///json");
        lemma_ascii_fits("data");
        lemma_ascii_fits("reveal");
        lemma_ascii_fits("true");
    }
    match append_pair("things:///json", "data", payload) {
        Some(url) => {
            if url.as_str().as_bytes().len() <= URL_LIMIT {
                append_pair(url.as_str(), "reveal", "true")
            } else {
                None
            }
        },
        None => None,
    }
}

/// Refuses an export where Things is not installed.
pub fn check_installed(installed: bool) -> (r: Result<(), MemoError>)
    ensures
        installed ==> r is Ok,
        !installed ==> r == Err::<(), MemoError>(MemoError::ExternalAppUnavailable),
{
    if installed {
        Ok(())
    } else {
        Err(MemoError::ExternalAppUnavailable)
    }
}

/// The URL that hands the records to Things, one to-do for each, in the
/// order given. The content of a record becomes the title of its to-do; its
/// name and label are not handed on.
pub fn export_url(rows: &Vec<Record>) -> (r: Result<String, MemoError>)
    ensures
        export_answer(views(rows@), r),
{
    let items = to_items(rows);
    let payload = encode_items(&items);
    proof {
        lemma_items_of_rows(items@, views(rows@));
    }
    match things_url(payload.as_str()) {
        Some(url) => Ok(url),
        None => Err(MemoError::InvalidUrl),
    }
}

/// Where the items are the to-dos of the records, their JSON array is the
/// payload of the records.
pub proof fn lemma_items_of_rows(items: Seq<Item>, rows: Seq<RecordView>)
    requires
        items.len() == rows.len(),
        forall|i: int| 0 <= i < rows.len() ==> is_todo_of(#[trigger] items[i], rows[i]),
    ensures
        items_json(items) == payload_of(rows),
{
    assert(item_jsons(items) =~= Seq::new(rows.len(), |i: int| todo_json(rows[i].content, None)))
        by {
        assert forall|i: int| 0 <= i < rows.len() implies item_jsons(items)[i] == todo_json(
            rows[i].content,
            None,
        ) by {
            assert(is_todo_of(items[i], rows[i]));
        }
    }
}

} // verus!
