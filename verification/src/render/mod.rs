//! Rendering: from the entries of a listing to one text document.
//!
//! The table and the HTML page are written here, character by character.
//! JSON and CSV are written by `serde_json` and `csv`; for those this module
//! fixes what the encoder is given and what stands around its text.
//! Markdown can be selected but has no renderer: its document is empty.
//! Rendering cannot fail.

pub mod csv_text;
pub mod html;
pub mod json_text;
pub mod table;
pub mod text;

use vstd::prelude::*;
use crate::config::OutputFormat;
use crate::entry::{DirectoryEntry, EntryView};
use crate::normalize::{normalized, MemberView};
use crate::render::csv_text::{csv_document, csv_record, render_csv};
use crate::render::html::{html_block, html_block_of, html_document, render_html};
use crate::render::json_text::{json_document, json_object, render_json};
use crate::render::table::{render_table, row_cells, table_document};
use crate::render::text::display_text;

verus! {

/// The document that stands for `entries` in `format`.
pub open spec fn document(entries: Seq<EntryView>, format: OutputFormat) -> Seq<char> {
    match format {
        OutputFormat::Table => table_document(entries),
        OutputFormat::Json => json_document(entries),
        OutputFormat::Html => html_document(entries),
        OutputFormat::Csv => csv_document(entries),
        OutputFormat::Markdown => Seq::empty(),
    }
}

/// Renders the entries in the given format.
pub fn render(entries: &Vec<DirectoryEntry>, format: OutputFormat) -> (text: String)
    ensures
        text@ == document(entries.deep_view(), format),
{
    match format {
        OutputFormat::Table => render_table(entries),
        OutputFormat::Json => render_json(entries),
        OutputFormat::Html => render_html(entries),
        OutputFormat::Csv => render_csv(entries),
        OutputFormat::Markdown => String::new(),
    }
}

/// Rendering is deterministic: two renderings of the same entries in the
/// same format, each being what [`render`] returns, are the same text.
pub proof fn lemma_render_deterministic(
    entries: Seq<EntryView>,
    format: OutputFormat,
    first: Seq<char>,
    second: Seq<char>,
)
    requires
        first == document(entries, format),
        second == document(entries, format),
    ensures
        first == second,
{
}

/// A contact field that the member's profile lacks shows as the literal
/// `N/A` in the table and on the HTML page, and is absent (`null` in JSON,
/// an empty field in CSV) in the encoded formats.
pub proof fn lemma_absent_fields(member: MemberView)
    requires
        normalized(member) is Some,
    ensures
        ({
            let profile = member.profile->Some_0;
            let entry = normalized(member)->Some_0;
            &&& profile.phone is None ==> {
                &&& row_cells(entry)[2] == "N/A"@
                &&& html_block(entry) == html_block_of(
                    entry.name,
                    display_text(entry.picture_url),
                    entry.handle,
                    "N/A"@,
                    display_text(entry.email),
                )
                &&& json_object(entry)[3] == ("phone_number"@, None::<Seq<char>>)
                &&& csv_record(entry)[3] == Seq::<char>::empty()
            }
            &&& profile.email is None ==> {
                &&& row_cells(entry)[3] == "N/A"@
                &&& html_block(entry) == html_block_of(
                    entry.name,
                    display_text(entry.picture_url),
                    entry.handle,
                    display_text(entry.phone_number),
                    "N/A"@,
                )
                &&& json_object(entry)[2] == ("email"@, None::<Seq<char>>)
                &&& csv_record(entry)[2] == Seq::<char>::empty()
            }
            &&& profile.picture is None ==> {
                &&& row_cells(entry)[5] == "N/A"@
                &&& html_block(entry) == html_block_of(
                    entry.name,
                    "N/A"@,
                    entry.handle,
                    display_text(entry.phone_number),
                    display_text(entry.email),
                )
                &&& json_object(entry)[4] == ("picture_url"@, None::<Seq<char>>)
                &&& csv_record(entry)[4] == Seq::<char>::empty()
            }
        }),
{
}

} // verus!
