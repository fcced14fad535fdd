//! Escaping of text that is put into an HTML page.

use vstd::prelude::*;

verus! {

/// What stands for one character in escaped text: an entity for `&`, `<`, `>`, `"`, `'` and
/// `/`, the character itself otherwise.
pub open spec fn escaped_char(c: char) -> Seq<char> {
    if c == '&' {
        seq!['&', 'a', 'm', 'p', ';']
    } else if c == '<' {
        seq!['&', 'l', 't', ';']
    } else if c == '>' {
        seq!['&', 'g', 't', ';']
    } else if c == '"' {
        seq!['&', 'q', 'u', 'o', 't', ';']
    } else if c == '\'' {
        seq!['&', '#', 'x', '2', '7', ';']
    } else if c == '/' {
        seq!['&', '#', 'x', '2', 'F', ';']
    } else {
        seq![c]
    }
}

/// `text` with each character escaped, in order.
pub open spec fn escaped(text: Seq<char>) -> Seq<char>
    decreases text.len(),
{
    if text.len() == 0 {
        Seq::empty()
    } else {
        escaped(text.drop_last()) + escaped_char(text.last())
    }
}

/// `html_escape::encode_safe`. The crate documents it as replacing `&`, `<`, `>`, `"`, `'` and
/// `/` by `&amp;`, `&lt;`, `&gt;`, `&quot;`, `&#x27;` and `&#x2F;`; every other character is
/// copied.
#[verifier::external_body]
pub(crate) fn encode_safe(text: &str) -> (out: String)
    ensures
        out@ == escaped(text@),
{
    html_escape::encode_safe(text).into_owned()
}

/// A character that HTML reads as markup, or that ends an attribute or a tag.
pub open spec fn is_markup(c: char) -> bool {
    c == '<' || c == '>' || c == '"' || c == '\'' || c == '/'
}

/// No character of `text` is read as markup.
pub open spec fn is_inert(text: Seq<char>) -> bool {
    forall|i: int| 0 <= i < text.len() ==> !is_markup(#[trigger] text[i])
}

/// Escaped text holds no markup, whatever the text was.
pub proof fn lemma_escaped_is_inert(text: Seq<char>)
    ensures
        is_inert(escaped(text)),
    decreases text.len(),
{
    if text.len() > 0 {
        lemma_escaped_is_inert(text.drop_last());
    }
}

} // verus!
