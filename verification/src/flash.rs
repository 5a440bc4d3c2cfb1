//! Messages for the next page, escaped for HTML, and redirects.
use vstd::prelude::*;
use vstd::string::StringExecFns;

verus! {

/// What stands for a character in escaped text: an entity for each of the
/// five characters that HTML gives a meaning to, the character itself for
/// every other.
pub open spec fn entity(c: char) -> Seq<char> {
    if c == '"' {
        "&quot;"@
    } else if c == '&' {
        "&amp;"@
    } else if c == '\'' {
        "&#x27;"@
    } else if c == '<' {
        "&lt;"@
    } else if c == '>' {
        "&gt;"@
    } else {
        seq![c]
    }
}

/// A text with each of its characters replaced by what stands for it.
pub open spec fn escaped(text: Seq<char>) -> Seq<char>
    decreases text.len(),
{
    if text.len() == 0 {
        Seq::empty()
    } else {
        escaped(text.drop_last()) + entity(text.last())
    }
}

/// `htmlescape::encode_minimal`: the text with `"`, `&`, `'`, `<` and `>`
/// replaced by their entities, and nothing else changed.
#[verifier::external_body]
fn encode_minimal(text: &str) -> (encoded: String)
    ensures
        encoded@ == escaped(text@),
{
    htmlescape::encode_minimal(text)
}

/// How grave a message is.
#[derive(Clone, Copy, Debug, PartialEq, Eq, Structural)]
pub enum Level {
    Info,
    Error,
}

/// A message for the next page that the user sees.
#[derive(Debug, PartialEq, Eq)]
pub struct Flash {
    pub level: Level,
    pub message: String,
}

/// Where a request is sent on, and the message to show there, if any.
#[derive(Debug, PartialEq, Eq)]
pub struct Redirect {
    pub location: String,
    pub flash: Option<Flash>,
}

/// A message as the paragraph that the pages show it in.
pub open spec fn flash_paragraph(message: Seq<char>) -> Seq<char> {
    "<p><i>"@ + escaped(message) + "</i></p>"@
}

/// Wraps a message, escaped, in the paragraph that the pages show it in.
pub fn flash_message(message: &str) -> (paragraph: String)
    ensures
        paragraph@ == flash_paragraph(message@),
{
    let mut paragraph = String::from_str("<p><i>");
    let encoded = encode_minimal(message);
    paragraph.append(encoded.as_str());
    paragraph.append("</i></p>");
    paragraph
}

} // verus!
