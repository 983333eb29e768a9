//! The typed result of one fetch and the small decoding policies shared by
//! every provider adapter: picking the first entry of a listing, attaching
//! auxiliary embed fields, and defaulting absent optional metadata.

use vstd::prelude::*;
use crate::errors::FetchError;
use crate::numerals::{dec_of_int, i16_to_dec};

verus! {

/// One name/value pair shown inside an embed.
#[derive(Debug)]
pub struct EmbedField {
    pub name: String,
    pub value: String,
}

/// What one successful fetch produced: the image URL and any auxiliary
/// fields to render beside it. Immutable once constructed.
#[derive(Debug)]
pub struct ImageResult {
    pub url: String,
    pub fields: Vec<EmbedField>,
}

/// A result that carries only an image URL.
pub fn plain_image(url: String) -> (r: ImageResult)
    ensures
        r.url == url,
        r.fields@ == Seq::<EmbedField>::empty(),
{
    let fields: Vec<EmbedField> = Vec::new();
    ImageResult { url, fields }
}

/// The policy for optional provider metadata: the value when it is present,
/// the placeholder "No Info" when it is absent.
pub fn field_or_no_info(value: Option<String>) -> (r: String)
    ensures
        value is Some ==> r == value->0,
        value is None ==> r@ == "No Info"@,
{
    match value {
        Some(v) => v,
        None => String::from_str("No Info"),
    }
}

/// Picks the image URL out of a listing-shaped response: the URL of the
/// first entry. An empty listing is a malformed body.
pub fn first_image(urls: Vec<String>) -> (r: Result<ImageResult, FetchError>)
    ensures
        urls@.len() == 0 ==> r == Err::<ImageResult, FetchError>(FetchError::MalformedBody),
        urls@.len() > 0 ==> r is Ok && r->Ok_0.url == urls@[0] && r->Ok_0.fields@
            == Seq::<EmbedField>::empty(),
{
    let mut urls = urls;
    if urls.len() == 0 {
        Err(FetchError::MalformedBody)
    } else {
        Ok(plain_image(urls.remove(0)))
    }
}

/// The result for a purrbot.site response: the linked image plus the
/// provider's response time rendered as an embed field.
pub fn purrbot_image_result(link: String, time: i16) -> (r: ImageResult)
    ensures
        r.url == link,
        r.fields@.len() == 1,
        r.fields@[0].name@ == "API Response Time"@,
        r.fields@[0].value@ == dec_of_int(time as int),
{
    let mut fields: Vec<EmbedField> = Vec::new();
    fields.push(
        EmbedField { name: String::from_str("API Response Time"), value: i16_to_dec(time) },
    );
    ImageResult { url: link, fields }
}

/// The text answered for an avatar lookup: the avatar URL when the platform
/// knows one, a fixed notice when it does not.
pub fn avatar_response(url: Option<String>) -> (r: String)
    ensures
        url is Some ==> r == url->0,
        url is None ==> r@ == "Error getting user avatar"@,
{
    match url {
        Some(u) => u,
        None => String::from_str("Error getting user avatar"),
    }
}

} // verus!
