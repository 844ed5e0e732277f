//! The HTML page: a title and one block per entry.

use vstd::prelude::*;
use vstd::string::*;
use crate::entry::{DirectoryEntry, EntryView};
use crate::render::text::{concat, display_text, lemma_concat_next, shown};

verus! {

/// The lines before the first block.
pub open spec fn html_opening() -> Seq<char> {
    "<html><body>\n"@ + "<h1>Slack Team Directory</h1>\n"@
}

/// The line after the last block.
pub open spec fn html_closing() -> Seq<char> {
    "</body></html>\n"@
}

/// The block of one member: the name as a heading, the picture, then the
/// handle, the phone number and the email, which is also the target of a
/// `mailto:` link. The texts are written as they are, without escaping.
pub open spec fn html_block_of(
    name: Seq<char>,
    picture: Seq<char>,
    handle: Seq<char>,
    phone: Seq<char>,
    email: Seq<char>,
) -> Seq<char> {
    "  <div>\n"@ + "    <h2>"@ + name + "</h2>\n"@ + "    <img src=\""@ + picture
        + "\" style='height: 48px; width: auto;'></img>\n"@ + "    <h3>Slack: "@ + handle
        + "</h3>\n"@ + "    <h3>Phone: "@ + phone + "</h3>\n"@
        + "    <h3>Email: <a href=\"mailto:"@ + email + "\">"@ + email + "</a></h3>\n"@
        + "  </div>\n"@
}

/// The block of an entry. An absent picture, phone number or email shows
/// as `N/A`.
pub open spec fn html_block(entry: EntryView) -> Seq<char> {
    html_block_of(
        entry.name,
        display_text(entry.picture_url),
        entry.handle,
        display_text(entry.phone_number),
        display_text(entry.email),
    )
}

/// The blocks of the entries, one each, in the entries' order.
pub open spec fn html_blocks(entries: Seq<EntryView>) -> Seq<Seq<char>> {
    Seq::new(entries.len(), |i: int| html_block(entries[i]))
}

/// The whole page.
pub open spec fn html_document(entries: Seq<EntryView>) -> Seq<char> {
    html_opening() + concat(html_blocks(entries)) + html_closing()
}

/// Appends the block of one member to `out`.
pub fn append_html_block(
    out: &mut String,
    name: &str,
    picture: &str,
    handle: &str,
    phone: &str,
    email: &str,
)
    ensures
        final(out)@ == old(out)@ + html_block_of(name@, picture@, handle@, phone@, email@),
{
    out.append("  <div>\n");
    out.append("    <h2>");
    out.append(name);
    out.append("</h2>\n");
    out.append("    <img src=\"");
    out.append(picture);
    out.append("\" style='height: 48px; width: auto;'></img>\n");
    out.append("    <h3>Slack: ");
    out.append(handle);
    out.append("</h3>\n");
    out.append("    <h3>Phone: ");
    out.append(phone);
    out.append("</h3>\n");
    out.append("    <h3>Email: <a href=\"mailto:");
    out.append(email);
    out.append("\">");
    out.append(email);
    out.append("</a></h3>\n");
    out.append("  </div>\n");
    assert(out@ =~= old(out)@ + html_block_of(name@, picture@, handle@, phone@, email@));
}

/// Renders the entries as an HTML page.
pub fn render_html(entries: &Vec<DirectoryEntry>) -> (document: String)
    ensures
        document@ == html_document(entries.deep_view()),
{
    let ghost views = entries.deep_view();
    let mut document = String::from_str("<html><body>\n");
    document.append("<h1>Slack Team Directory</h1>\n");
    proof {
        assert(html_blocks(views).take(0) =~= Seq::<Seq<char>>::empty());
        assert(document@ =~= html_opening() + concat(html_blocks(views).take(0)));
    }
    let mut i: usize = 0;
    while i < entries.len()
        invariant
            i <= entries.len(),
            views == entries.deep_view(),
            document@ == html_opening() + concat(html_blocks(views).take(i as int)),
        decreases entries.len() - i,
    {
        let entry = &entries[i];
        append_html_block(
            &mut document,
            entry.name.as_str(),
            shown(&entry.picture_url),
            entry.handle.as_str(),
            shown(&entry.phone_number),
            shown(&entry.email),
        );
        proof {
            lemma_concat_next(html_blocks(views), i as int);
            assert(document@ =~= html_opening() + concat(html_blocks(views).take(i + 1)));
        }
        i = i + 1;
    }
    assert(html_blocks(views).take(i as int) =~= html_blocks(views));
    document.append("</body></html>\n");
    document
}

} // verus!
