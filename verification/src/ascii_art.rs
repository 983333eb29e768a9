//! The ascii command's compute step: render a message as FIGlet ASCII art
//! and fence it as a code block.

use vstd::prelude::*;

verus! {

/// The ASCII-art rendering of a message with the standard FIGlet font.
pub uninterp spec fn figlet_of(s: Seq<char>) -> Seq<char>;

/// Relies on figlet_rs::FIGlet::standard and FIGlet::convert: the font is a
/// constant embedded in the crate and rendering is pure, so the result
/// depends on the message characters alone. `None` when the embedded font
/// fails to parse or the message cannot be converted.
#[verifier::external_body]
fn figlet_standard_convert(text: &str) -> (r: Option<String>)
    ensures
        r is Some ==> r->0@ == figlet_of(text@),
{
    match figlet_rs::FIGlet::standard() {
        Ok(font) => font.convert(text).map(|figure| figure.to_string()),
        Err(_) => None,
    }
}

/// The text the ascii command posts: the ASCII-art rendering of the message,
/// fenced as a code block. `None` when the converter cannot render it.
pub fn ascii_art_block(text: &str) -> (r: Option<String>)
    ensures
        r is Some ==> r->0@ == "```"@ + figlet_of(text@) + "```"@,
{
    match figlet_standard_convert(text) {
        Some(figure) => Some(String::from_str("```").concat(figure.as_str()).concat("```")),
        None => None,
    }
}

} // verus!
