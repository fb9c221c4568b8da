//! Text on its way into markup: the characters that HTML gives a meaning are
//! replaced by entities.
use vstd::prelude::*;

verus! {

/// What stands for one character in HTML text: an entity for the five
/// characters that markup gives a meaning, else the character itself.
pub open spec fn escaped_char(c: char) -> Seq<char> {
    if c == '<' {
        "&lt;"@
    } else if c == '>' {
        "&gt;"@
    } else if c == '&' {
        "&amp;"@
    } else if c == '"' {
        "&quot;"@
    } else if c == '\'' {
        "&#x27;"@
    } else {
        seq![c]
    }
}

/// `text` with each character replaced by what stands for it in HTML.
pub open spec fn escaped(text: Seq<char>) -> Seq<char>
    decreases text.len(),
{
    if text.len() == 0 {
        Seq::empty()
    } else {
        escaped(text.drop_last()) + escaped_char(text.last())
    }
}

/// Escaping goes character by character: the escaped form of two texts in a
/// row is the escaped forms in a row.
pub proof fn escaped_of_concatenation(head: Seq<char>, tail: Seq<char>)
    ensures
        escaped(head + tail) == escaped(head) + escaped(tail),
    decreases tail.len(),
{
    if tail.len() == 0 {
        assert(head + tail =~= head);
        assert(escaped(head) + escaped(tail) =~= escaped(head));
    } else {
        escaped_of_concatenation(head, tail.drop_last());
        assert((head + tail).drop_last() =~= head + tail.drop_last());
        assert((head + tail).last() == tail.last());
        assert(escaped(head + tail) =~= escaped(head) + escaped(tail));
    }
}

/// Escapes text for HTML as `askama::MarkupDisplay` does with the `Html`
/// escaper, which is what a template does to every value it is not told to
/// trust: `<`, `>`, `&`, `"` and `'` become `&lt;`, `&gt;`, `&amp;`, `&quot;`
/// and `&#x27;`, and every other character is kept.
#[verifier::external_body]
pub(crate) fn escape_html(text: &str) -> (r: String)
    ensures
        r@ == escaped(text@),
{
    askama::MarkupDisplay::new_unsafe(text, askama::Html).to_string()
}

/// Joins the escaped form of `value` to `head`.
pub fn joined_escaped(head: &str, value: &str) -> (r: String)
    ensures
        r@ == head@ + escaped(value@),
{
    let value = escape_html(value);
    crate::text::joined(head, value.as_str())
}

} // verus!
