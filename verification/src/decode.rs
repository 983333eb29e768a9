//! The raw-string decoding strategy: one provider answers not with JSON but
//! with a bare string framed by two leading and two trailing characters,
//! which are stripped to obtain the image URL.

use vstd::prelude::*;
use crate::errors::FetchError;

verus! {

/// The slice of `s` from character `start` (inclusive) to character `end`
/// (exclusive), clamped to the string's length; empty when the range is
/// reversed or empty.
pub open spec fn spec_substring(s: Seq<char>, start: int, end: int) -> Seq<char> {
    if end <= start {
        Seq::empty()
    } else {
        let lo = if start <= s.len() {
            start
        } else {
            s.len() as int
        };
        let hi = if end <= s.len() {
            end
        } else {
            s.len() as int
        };
        s.subrange(lo, hi)
    }
}

/// Relies on substring::Substring::substring for str: the characters in
/// [start_index, end_index) by character index, clamped to the string's
/// length, and empty when the range is reversed or empty.
#[verifier::external_body]
fn substring_chars(s: &str, start_index: usize, end_index: usize) -> (r: String)
    ensures
        r@ == spec_substring(s@, start_index as int, end_index as int),
{
    substring::Substring::substring(s, start_index, end_index).to_string()
}

/// A framed payload with its two leading and two trailing characters
/// removed.
pub open spec fn stripped(s: Seq<char>) -> Seq<char>
    recommends
        s.len() >= 4,
{
    s.subrange(2, s.len() - 2)
}

/// Strips the fixed two-character frame from a raw-string provider payload.
/// A payload too short to carry both frames is a malformed body.
pub fn strip_frame(s: &str) -> (r: Result<String, FetchError>)
    ensures
        s@.len() >= 4 ==> r is Ok && r->Ok_0@ == stripped(s@),
        s@.len() < 4 ==> r == Err::<String, FetchError>(FetchError::MalformedBody),
{
    let n = s.unicode_len();
    if n < 4 {
        Err(FetchError::MalformedBody)
    } else {
        let mid = substring_chars(s, 2, n - 2);
        proof {
            assert(mid@ =~= stripped(s@));
        }
        Ok(mid)
    }
}

/// Law: stripping a framed payload — two framing characters, then the
/// content, then two framing characters — yields exactly the content.
pub proof fn lemma_strip_frame_exact(prefix: Seq<char>, content: Seq<char>, suffix: Seq<char>)
    requires
        prefix.len() == 2,
        suffix.len() == 2,
    ensures
        stripped(prefix + content + suffix) == content,
{
    assert(stripped(prefix + content + suffix) =~= content);
}

} // verus!
