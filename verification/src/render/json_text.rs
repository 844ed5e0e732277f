//! JSON: the listing as a pretty-printed array of objects.
//!
//! The crate decides what the array holds: one object per entry, its fields
//! and their order. `serde_json` writes the text.

use vstd::prelude::*;
use vstd::string::*;
use crate::entry::{copy_optional, presence_name, DirectoryEntry, EntryView};

verus! {

/// The object of an entry: its six fields by name, in this order. An absent
/// contact field is `None`, which is written as `null`, never as `N/A`; the
/// presence is written by its name.
pub open spec fn json_object(entry: EntryView) -> Seq<(Seq<char>, Option<Seq<char>>)> {
    seq![
        ("name"@, Some(entry.name)),
        ("handle"@, Some(entry.handle)),
        ("email"@, entry.email),
        ("phone_number"@, entry.phone_number),
        ("picture_url"@, entry.picture_url),
        ("presence_status"@, Some(presence_name(entry.presence_status))),
    ]
}

/// The objects of the entries, one each, in the entries' order.
pub open spec fn json_array(entries: Seq<EntryView>) -> Seq<Seq<(Seq<char>, Option<Seq<char>>)>> {
    Seq::new(entries.len(), |i: int| json_object(entries[i]))
}

/// The text that `serde_json::to_string_pretty` gives for an array of
/// objects whose fields are strings or `null`: a function of the array alone.
pub uninterp spec fn json_pretty_text(objects: Seq<Seq<(Seq<char>, Option<Seq<char>>)>>) -> Seq<
    char,
>;

/// The whole document: the pretty-printed array and a line feed.
pub open spec fn json_document(entries: Seq<EntryView>) -> Seq<char> {
    json_pretty_text(json_array(entries)) + "\n"@
}

/// Builds the object of an entry.
pub fn build_json_object(entry: &DirectoryEntry) -> (object: Vec<(String, Option<String>)>)
    ensures
        object.deep_view() == json_object(entry@),
{
    let mut object: Vec<(String, Option<String>)> = Vec::new();
    object.push((String::from_str("name"), Some(entry.name.clone())));
    object.push((String::from_str("handle"), Some(entry.handle.clone())));
    object.push((String::from_str("email"), copy_optional(&entry.email)));
    object.push((String::from_str("phone_number"), copy_optional(&entry.phone_number)));
    object.push((String::from_str("picture_url"), copy_optional(&entry.picture_url)));
    object.push((String::from_str("presence_status"), Some(entry.presence_status.name())));
    assert(object.deep_view() =~= json_object(entry@));
    object
}

/// Builds the array that stands for the entries.
pub fn build_json_array(entries: &Vec<DirectoryEntry>) -> (array: Vec<
    Vec<(String, Option<String>)>,
>)
    ensures
        array.deep_view() == json_array(entries.deep_view()),
{
    let mut array: Vec<Vec<(String, Option<String>)>> = Vec::new();
    let mut i: usize = 0;
    while i < entries.len()
        invariant
            i <= entries.len(),
            array@.len() == i,
            forall|k: int|
                0 <= k < i ==> (#[trigger] array@[k]).deep_view() == json_object(entries@[k]@),
        decreases entries.len() - i,
    {
        let object = build_json_object(&entries[i]);
        array.push(object);
        i = i + 1;
    }
    assert(array.deep_view() =~= json_array(entries.deep_view()));
    array
}

/// `serde_json::to_string_pretty` on the array of objects.
///
/// Trusted: the encoder succeeds, and its text is [`json_pretty_text`] of
/// what it was given. Each field goes in as a JSON string, or as `null`
/// where it is `None`, under its key and in the given order. The encoder
/// can fail only where a value refuses to be written, where a key is not a
/// string, or where its sink fails; here every value is a string or `null`,
/// every key is a string and the sink is a buffer in memory.
#[verifier::external_body]
fn encode_json(objects: &Vec<Vec<(String, Option<String>)>>) -> (encoded: Option<String>)
    ensures
        encoded is Some,
        encoded->Some_0@ == json_pretty_text(objects.deep_view()),
{
    let array: Vec<serde_json::Value> = objects.iter().map(
        |fields| {
            serde_json::Value::Object(
                fields.iter().cloned().map(
                    |(key, value)| (key, serde_json::Value::from(value)),
                ).collect(),
            )
        },
    ).collect();
    serde_json::to_string_pretty(&array).ok()
}

/// Ends the JSON document: the encoder's text and a line feed after it.
pub fn finish_json(encoded: String) -> (document: String)
    ensures
        document@ == encoded@ + "\n"@,
{
    let mut document = encoded;
    document.append("\n");
    document
}

/// Renders the entries as JSON.
pub fn render_json(entries: &Vec<DirectoryEntry>) -> (document: String)
    ensures
        document@ == json_document(entries.deep_view()),
{
    let array = build_json_array(entries);
    finish_json(encode_json(&array).unwrap())
}

} // verus!
