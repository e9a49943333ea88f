use vstd::prelude::*;

use crate::item::{items_view, ItemModel, TodoItem};
use crate::text::push_str;

verus! {

#[verifier::external_type_specification]
#[verifier::external_body]
pub struct ExJsonError(serde_json::Error);

/// The JSON string literal that serde_json writes for a text, or `None`
/// where it reports an error.
pub uninterp spec fn json_text(s: Seq<char>) -> Option<Seq<char>>;

/// The text that remains once leading and trailing whitespace is removed.
pub uninterp spec fn trimmed(s: Seq<char>) -> Seq<char>;

/// Relies on serde_json::to_string applied to a string slice: the quoted and
/// escaped JSON form of the text, a function of the text alone.
#[verifier::external_body]
fn json_string(s: &str) -> (r: Result<String, serde_json::Error>)
    ensures
        match r {
            Ok(t) => json_text(s@) == Some(t@),
            Err(_) => json_text(s@) is None,
        },
{
    serde_json::to_string(s)
}

/// Relies on str::trim: the text without its leading and trailing whitespace.
#[verifier::external_body]
fn trim(s: &str) -> (r: &str)
    ensures
        r@ == trimmed(s@),
{
    s.trim()
}

/// What loading must do with the text found in the store's file.
#[derive(Clone, Copy, Debug, PartialEq, Eq, Structural)]
pub enum Bootstrap {
    /// The text is the document: parse it, and fail if it does not parse.
    UseAsIs,
    /// The file is new or blank: write the empty document over it and use that.
    WriteEmpty,
}

/// Decides what loading does with the file's text: only a file holding
/// nothing but whitespace is replaced by the empty document; any other text
/// is kept, so that a file that fails to parse is never overwritten.
pub fn bootstrap_action(content: &str) -> (r: Bootstrap)
    ensures
        r == Bootstrap::WriteEmpty <==> trimmed(content@).len() == 0,
{
    bootstrap_of_trimmed(trim(content))
}

/// The same decision, given the file's text once trimmed of whitespace.
pub fn bootstrap_of_trimmed(trimmed: &str) -> (r: Bootstrap)
    ensures
        r == Bootstrap::WriteEmpty <==> trimmed@.len() == 0,
{
    if trimmed.is_empty() {
        Bootstrap::WriteEmpty
    } else {
        Bootstrap::UseAsIs
    }
}

pub open spec fn bool_text(b: bool) -> Seq<char> {
    if b {
        "true"@
    } else {
        "false"@
    }
}

/// One item of the document, from its flag and its two fields already in
/// JSON string form.
pub open spec fn record_text(is_done: bool, name_json: Seq<char>, description_json: Seq<char>) -> Seq<char> {
    "{\"is_done\":"@ + bool_text(is_done) + ",\"name\":"@ + name_json + ",\"description\":"@
        + description_json + "}"@
}

/// The records separated by commas.
pub open spec fn joined(records: Seq<Seq<char>>) -> Seq<char>
    decreases records.len(),
{
    if records.len() == 0 {
        Seq::empty()
    } else if records.len() == 1 {
        records[0]
    } else {
        joined(records.drop_last()) + ","@ + records.last()
    }
}

/// The whole document around its item records.
pub open spec fn document_frame(records: Seq<Seq<char>>) -> Seq<char> {
    "{\"items\":["@ + joined(records) + "]}"@
}

/// The record of one item, where both its texts can be written as JSON.
pub open spec fn item_record(item: ItemModel) -> Option<Seq<char>> {
    match (json_text(item.name), json_text(item.description)) {
        (Some(n), Some(d)) => Some(record_text(item.is_done, n, d)),
        _ => None,
    }
}

/// The persisted document of a list, in list order; `None` where some text
/// cannot be written as JSON.
pub open spec fn document_text(items: Seq<ItemModel>) -> Option<Seq<char>> {
    if forall|i: int| 0 <= i < items.len() ==> (#[trigger] item_record(items[i])) is Some {
        Some(document_frame(Seq::new(items.len(), |i: int| item_record(items[i])->0)))
    } else {
        None
    }
}

/// The record of one item, given its name and description in JSON string form.
pub fn record(is_done: bool, name_json: &str, description_json: &str) -> (r: String)
    ensures
        r@ == record_text(is_done, name_json@, description_json@),
{
    let mut out = String::new();
    push_str(&mut out, "{\"is_done\":");
    push_str(&mut out, if is_done { "true" } else { "false" });
    push_str(&mut out, ",\"name\":");
    push_str(&mut out, name_json);
    push_str(&mut out, ",\"description\":");
    push_str(&mut out, description_json);
    push_str(&mut out, "}");
    out
}

/// The document holding the given records, in their order.
pub fn document(records: &Vec<String>) -> (r: String)
    ensures
        r@ == document_frame(records@.map_values(|s: String| s@)),
{
    let ghost texts = records@.map_values(|s: String| s@);
    let mut out = String::new();
    push_str(&mut out, "{\"items\":[");
    let mut i: usize = 0;
    while i < records.len()
        invariant
            i <= records.len(),
            texts == records@.map_values(|s: String| s@),
            out@ == "{\"items\":["@ + joined(texts.take(i as int)),
        decreases records.len() - i,
    {
        proof {
            assert(texts.take(i + 1).drop_last() =~= texts.take(i as int));
        }
        if i > 0 {
            push_str(&mut out, ",");
        }
        push_str(&mut out, records[i].as_str());
        proof {
            if i == 0 {
                assert(out@ =~= "{\"items\":["@ + joined(texts.take(1)));
            } else {
                assert(out@ =~= "{\"items\":["@ + joined(texts.take(i + 1)));
            }
        }
        i = i + 1;
    }
    push_str(&mut out, "]}");
    proof {
        assert(texts.take(records.len() as int) =~= texts);
    }
    out
}

/// The document of an empty list.
pub fn empty_document() -> (r: String)
    ensures
        r@ == document_text(Seq::empty())->0,
        document_text(Seq::empty()) is Some,
{
    let records: Vec<String> = Vec::new();
    let r = document(&records);
    proof {
        assert(records@.map_values(|s: String| s@) =~= Seq::new(
            0,
            |i: int| item_record(Seq::<ItemModel>::empty()[i])->0,
        ));
    }
    r
}

/// The document that saving writes for `items`, in list order; `None` only
/// where serde_json refuses to write one of the texts.
pub fn encode_document(items: &Vec<TodoItem>) -> (r: Option<String>)
    ensures
        match document_text(items_view(items@)) {
            Some(t) => r is Some && r->0@ == t,
            None => r is None,
        },
{
    let ghost v = items_view(items@);
    let mut records: Vec<String> = Vec::new();
    let mut i: usize = 0;
    while i < items.len()
        invariant
            i <= items.len(),
            v == items_view(items@),
            records@.len() == i,
            forall|j: int| 0 <= j < i ==> (#[trigger] item_record(v[j])) is Some,
            forall|j: int| 0 <= j < i ==> (#[trigger] records@[j])@ == item_record(v[j])->0,
        decreases items.len() - i,
    {
        let name = match json_string(items[i].name.as_str()) {
            Ok(t) => t,
            Err(_) => {
                assert(item_record(v[i as int]) is None);
                return None;
            },
        };
        let description = match json_string(items[i].description.as_str()) {
            Ok(t) => t,
            Err(_) => {
                assert(item_record(v[i as int]) is None);
                return None;
            },
        };
        records.push(record(items[i].is_done, name.as_str(), description.as_str()));
        i = i + 1;
    }
    proof {
        assert(records@.map_values(|s: String| s@) =~= Seq::new(
            v.len(),
            |j: int| item_record(v[j])->0,
        ));
    }
    Some(document(&records))
}

} // verus!
