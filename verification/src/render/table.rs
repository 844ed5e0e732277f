//! The table: a header line and one line per entry, in columns.

use vstd::prelude::*;
use vstd::string::*;
use crate::entry::{DirectoryEntry, EntryView};
use crate::render::text::{append_padded, concat, display_text, lemma_concat_next, padded, shown};

verus! {

/// The titles of the six columns.
pub open spec fn header_cells() -> Seq<Seq<char>> {
    seq!["Name"@, "handle"@, "phone"@, "email"@, "status"@, "picture url"@]
}

/// The column widths of the header line.
pub open spec fn header_widths() -> Seq<nat> {
    seq![10, 10, 10, 10, 10, 10]
}

/// The cells of an entry's line, under the titles of [`header_cells`]. An
/// absent phone number, email or picture shows as `N/A`; the status column
/// shows `N/A` whatever the entry's presence is.
pub open spec fn row_cells(entry: EntryView) -> Seq<Seq<char>> {
    seq![
        entry.name,
        entry.handle,
        display_text(entry.phone_number),
        display_text(entry.email),
        "N/A"@,
        display_text(entry.picture_url),
    ]
}

/// The column widths of an entry's line.
pub open spec fn row_widths() -> Seq<nat> {
    seq![18, 10, 15, 3, 10, 10]
}

/// One line of the table: six cells, each left-aligned in its column, with
/// ` | ` between neighbours and a line feed at the end.
pub open spec fn table_line(cells: Seq<Seq<char>>, widths: Seq<nat>) -> Seq<char>
    recommends
        cells.len() == 6,
        widths.len() == 6,
{
    padded(cells[0], widths[0]) + " | "@ + padded(cells[1], widths[1]) + " | "@ + padded(
        cells[2],
        widths[2],
    ) + " | "@ + padded(cells[3], widths[3]) + " | "@ + padded(cells[4], widths[4]) + " | "@
        + padded(cells[5], widths[5]) + "\n"@
}

/// The lines of the entries, one each, in the entries' order.
pub open spec fn table_rows(entries: Seq<EntryView>) -> Seq<Seq<char>> {
    Seq::new(entries.len(), |i: int| table_line(row_cells(entries[i]), row_widths()))
}

/// The whole table: the header line, then the entries' lines. There is no
/// separator line and no total.
pub open spec fn table_document(entries: Seq<EntryView>) -> Seq<char> {
    table_line(header_cells(), header_widths()) + concat(table_rows(entries))
}

/// The views of six cells, in order.
pub open spec fn cell_views(cells: [&str; 6]) -> Seq<Seq<char>> {
    Seq::new(6, |i: int| cells@[i]@)
}

/// The six widths as naturals, in order.
pub open spec fn width_values(widths: [usize; 6]) -> Seq<nat> {
    Seq::new(6, |i: int| widths@[i] as nat)
}

/// Appends one table line to `out`.
pub fn append_table_line(out: &mut String, cells: [&str; 6], widths: [usize; 6])
    ensures
        final(out)@ == old(out)@ + table_line(cell_views(cells), width_values(widths)),
{
    append_padded(out, cells[0], widths[0]);
    out.append(" | ");
    append_padded(out, cells[1], widths[1]);
    out.append(" | ");
    append_padded(out, cells[2], widths[2]);
    out.append(" | ");
    append_padded(out, cells[3], widths[3]);
    out.append(" | ");
    append_padded(out, cells[4], widths[4]);
    out.append(" | ");
    append_padded(out, cells[5], widths[5]);
    out.append("\n");
    assert(out@ =~= old(out)@ + table_line(cell_views(cells), width_values(widths)));
}

/// Renders the entries as a table.
pub fn render_table(entries: &Vec<DirectoryEntry>) -> (document: String)
    ensures
        document@ == table_document(entries.deep_view()),
{
    let ghost views = entries.deep_view();
    let mut document = String::new();
    let titles: [&str; 6] = ["Name", "handle", "phone", "email", "status", "picture url"];
    let title_widths: [usize; 6] = [10, 10, 10, 10, 10, 10];
    append_table_line(&mut document, titles, title_widths);
    assert(cell_views(titles) =~= header_cells());
    assert(width_values(title_widths) =~= header_widths());
    let ghost header = document@;
    proof {
        assert(table_rows(views).take(0) =~= Seq::<Seq<char>>::empty());
        assert(document@ =~= header + concat(table_rows(views).take(0)));
    }
    let mut i: usize = 0;
    while i < entries.len()
        invariant
            i <= entries.len(),
            views == entries.deep_view(),
            header == table_line(header_cells(), header_widths()),
            document@ == header + concat(table_rows(views).take(i as int)),
        decreases entries.len() - i,
    {
        let entry = &entries[i];
        let cells: [&str; 6] = [
            entry.name.as_str(),
            entry.handle.as_str(),
            shown(&entry.phone_number),
            shown(&entry.email),
            "N/A",
            shown(&entry.picture_url),
        ];
        let widths: [usize; 6] = [18, 10, 15, 3, 10, 10];
        append_table_line(&mut document, cells, widths);
        proof {
            assert(cell_views(cells) =~= row_cells(views[i as int]));
            assert(width_values(widths) =~= row_widths());
            lemma_concat_next(table_rows(views), i as int);
            assert(document@ =~= header + concat(table_rows(views).take(i + 1)));
        }
        i = i + 1;
    }
    assert(table_rows(views).take(i as int) =~= table_rows(views));
    document
}

} // verus!
