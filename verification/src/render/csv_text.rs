//! CSV: a header record and one record per entry.
//!
//! The crate decides which records there are and what their fields hold.
//! The `csv` crate writes each record, with its own quoting rules.

use vstd::prelude::*;
use vstd::string::*;
use crate::entry::{presence_name, DirectoryEntry, EntryView};
use crate::render::text::{concat, lemma_concat_next};

verus! {

/// The header record: the names of an entry's fields.
pub open spec fn csv_header() -> Seq<Seq<char>> {
    seq!["name"@, "handle"@, "email"@, "phone_number"@, "picture_url"@, "presence_status"@]
}

/// What a contact field holds in CSV: its text, or nothing at all where the
/// field is absent (never `N/A`).
pub open spec fn csv_field(field: Option<Seq<char>>) -> Seq<char> {
    match field {
        Some(text) => text,
        None => Seq::empty(),
    }
}

/// The record of an entry, field by field under [`csv_header`].
pub open spec fn csv_record(entry: EntryView) -> Seq<Seq<char>> {
    seq![
        entry.name,
        entry.handle,
        csv_field(entry.email),
        csv_field(entry.phone_number),
        csv_field(entry.picture_url),
        presence_name(entry.presence_status),
    ]
}

/// The records of the document: the header and then one record per entry, in
/// the entries' order. Without entries there is no record, not even the
/// header.
pub open spec fn csv_records(entries: Seq<EntryView>) -> Seq<Seq<Seq<char>>> {
    if entries.len() == 0 {
        Seq::empty()
    } else {
        Seq::new(
            entries.len() + 1,
            |i: int|
                if i == 0 {
                    csv_header()
                } else {
                    csv_record(entries[i - 1])
                },
        )
    }
}

/// The text that `csv::Writer::write_record` writes for one record when the
/// writer is new and has the default settings, terminator included: a
/// function of the record's fields alone.
pub uninterp spec fn csv_record_text(fields: Seq<Seq<char>>) -> Seq<char>;

/// The records as the writer writes them, one text each.
pub open spec fn csv_lines(records: Seq<Seq<Seq<char>>>) -> Seq<Seq<char>> {
    Seq::new(records.len(), |i: int| csv_record_text(records[i]))
}

/// The whole document: every record as written, and a line feed at the end.
pub open spec fn csv_document(entries: Seq<EntryView>) -> Seq<char> {
    concat(csv_lines(csv_records(entries))) + "\n"@
}

/// Builds the header record.
pub fn build_csv_header() -> (header: Vec<String>)
    ensures
        header.deep_view() == csv_header(),
{
    let mut header: Vec<String> = Vec::new();
    header.push(String::from_str("name"));
    header.push(String::from_str("handle"));
    header.push(String::from_str("email"));
    header.push(String::from_str("phone_number"));
    header.push(String::from_str("picture_url"));
    header.push(String::from_str("presence_status"));
    assert(header.deep_view() =~= csv_header());
    header
}

fn field_text(field: &Option<String>) -> (text: String)
    ensures
        text@ == csv_field(field.deep_view()),
{
    match field {
        Some(value) => value.clone(),
        None => String::new(),
    }
}

/// Builds the record of an entry.
pub fn build_csv_record(entry: &DirectoryEntry) -> (record: Vec<String>)
    ensures
        record.deep_view() == csv_record(entry@),
{
    let mut record: Vec<String> = Vec::new();
    record.push(entry.name.clone());
    record.push(entry.handle.clone());
    record.push(field_text(&entry.email));
    record.push(field_text(&entry.phone_number));
    record.push(field_text(&entry.picture_url));
    record.push(entry.presence_status.name());
    assert(record.deep_view() =~= csv_record(entry@));
    record
}

/// Builds the records of the document; see [`csv_records`].
pub fn build_csv_records(entries: &Vec<DirectoryEntry>) -> (records: Vec<Vec<String>>)
    ensures
        records.deep_view() == csv_records(entries.deep_view()),
{
    let mut records: Vec<Vec<String>> = Vec::new();
    if entries.len() == 0 {
        assert(records.deep_view() =~= csv_records(entries.deep_view()));
        return records;
    }
    records.push(build_csv_header());
    let mut i: usize = 0;
    while i < entries.len()
        invariant
            i <= entries.len(),
            records@.len() == i + 1,
            records@[0].deep_view() == csv_header(),
            forall|k: int|
                1 <= k <= i ==> (#[trigger] records@[k]).deep_view() == csv_record(
                    entries@[k - 1]@,
                ),
        decreases entries.len() - i,
    {
        let record = build_csv_record(&entries[i]);
        records.push(record);
        i = i + 1;
    }
    assert(records.deep_view() =~= csv_records(entries.deep_view()));
    records
}

/// `csv::Writer::write_record` on a new writer over an in-memory buffer,
/// and the buffer read back as text.
///
/// Trusted: the call succeeds, and the text is [`csv_record_text`] of the
/// fields. The writer can fail only where its sink fails or where a record
/// is not as long as the first one; here the sink is a buffer in memory and
/// the record is the writer's first. What it writes is the fields' own
/// bytes with quotes, delimiters and the terminator between them, so the
/// buffer reads back as text.
#[verifier::external_body]
fn encode_csv_record(fields: &Vec<String>) -> (encoded: Option<String>)
    ensures
        encoded is Some,
        encoded->Some_0@ == csv_record_text(fields.deep_view()),
{
    let mut writer = csv::Writer::from_writer(Vec::new());
    writer.write_record(fields).ok()?;
    let bytes = writer.into_inner().ok()?;
    String::from_utf8(bytes).ok()
}

/// Joins the written records into the document: all of them, in order, and a
/// line feed at the end.
pub fn join_csv_lines(lines: &Vec<String>) -> (document: String)
    ensures
        document@ == concat(lines.deep_view()) + "\n"@,
{
    let ghost texts = lines.deep_view();
    let mut document = String::new();
    proof {
        assert(texts.take(0) =~= Seq::<Seq<char>>::empty());
        assert(document@ =~= concat(texts.take(0)));
    }
    let mut i: usize = 0;
    while i < lines.len()
        invariant
            i <= lines.len(),
            texts == lines.deep_view(),
            document@ == concat(texts.take(i as int)),
        decreases lines.len() - i,
    {
        document.append(lines[i].as_str());
        proof {
            lemma_concat_next(texts, i as int);
        }
        i = i + 1;
    }
    assert(texts.take(i as int) =~= texts);
    document.append("\n");
    document
}

/// Renders the entries as CSV. A listing without entries is a lone line
/// feed.
pub fn render_csv(entries: &Vec<DirectoryEntry>) -> (document: String)
    ensures
        document@ == csv_document(entries.deep_view()),
{
    let records = build_csv_records(entries);
    let ghost expected = csv_records(entries.deep_view());
    let mut lines: Vec<String> = Vec::new();
    let mut i: usize = 0;
    while i < records.len()
        invariant
            i <= records.len(),
            lines@.len() == i,
            records.deep_view() == expected,
            forall|k: int| 0 <= k < i ==> (#[trigger] lines@[k])@ == csv_record_text(expected[k]),
        decreases records.len() - i,
    {
        let line = encode_csv_record(&records[i]).unwrap();
        assert(records@[i as int].deep_view() == expected[i as int]);
        lines.push(line);
        i = i + 1;
    }
    proof {
        assert(expected.len() == records@.len());
        assert(lines.deep_view() =~= csv_lines(expected));
    }
    join_csv_lines(&lines)
}

} // verus!
