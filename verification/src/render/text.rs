//! Text building shared by the renderers.

use vstd::prelude::*;
use vstd::string::*;

verus! {

/// What the table and the HTML page show for a contact field: the field's
/// text, or `N/A` where the field is absent.
pub open spec fn display_text(field: Option<Seq<char>>) -> Seq<char> {
    match field {
        Some(text) => text,
        None => "N/A"@,
    }
}

/// `count` spaces.
pub open spec fn spaces(count: nat) -> Seq<char> {
    Seq::new(count, |i: int| ' ')
}

/// `text` left-aligned in a column of `width` characters: filled up with
/// spaces on the right, and left as it is, in full, when it is already as
/// long as the column or longer.
pub open spec fn padded(text: Seq<char>, width: nat) -> Seq<char> {
    if text.len() >= width {
        text
    } else {
        text + spaces((width - text.len()) as nat)
    }
}

/// The parts written one after the other.
pub open spec fn concat(parts: Seq<Seq<char>>) -> Seq<char>
    decreases parts.len(),
{
    if parts.len() == 0 {
        Seq::empty()
    } else {
        concat(parts.drop_last()) + parts.last()
    }
}

/// Writing the first `i + 1` parts is writing the first `i` and then part `i`.
pub proof fn lemma_concat_next(parts: Seq<Seq<char>>, i: int)
    requires
        0 <= i < parts.len(),
    ensures
        concat(parts.take(i + 1)) == concat(parts.take(i)) + parts[i],
{
    let longer = parts.take(i + 1);
    assert(longer.drop_last() =~= parts.take(i));
    assert(longer.last() == parts[i]);
}

/// The text shown for a contact field; see [`display_text`].
pub fn shown(field: &Option<String>) -> (text: &str)
    ensures
        text@ == display_text(field.deep_view()),
{
    match field {
        Some(value) => value.as_str(),
        None => "N/A",
    }
}

/// Appends `text` to `out`, left-aligned in a column of `width` characters.
pub fn append_padded(out: &mut String, text: &str, width: usize)
    ensures
        final(out)@ == old(out)@ + padded(text@, width as nat),
{
    out.append(text);
    let length: usize = text.unicode_len();
    let mut written: usize = length;
    while written < width
        invariant
            length == text@.len(),
            length <= written,
            length < width ==> written <= width,
            length >= width ==> written == length,
            out@ == old(out)@ + text@ + spaces((written - length) as nat),
        decreases width - written,
    {
        proof {
            reveal_strlit(" ");
        }
        out.append(" ");
        written = written + 1;
        assert(out@ =~= old(out)@ + text@ + spaces((written - length) as nat));
    }
    assert(out@ =~= old(out)@ + padded(text@, width as nat));
}

} // verus!
