//! The catalog of third-party image endpoints and the exact request URL each
//! one is called with. The URLs are data: every command differs only in which
//! provider it queries and how the response body is decoded.

use vstd::prelude::*;
use crate::numerals::{dec_of_int, i16_to_dec};

verus! {

/// The animal galleries served by shibe.online.
pub enum AnimalOnlineChoices {
    Bird,
    Shibe,
    Cat,
}

/// The safe-for-work galleries of purrbot.site that the bot queries.
pub enum PurrbotImageChoices {
    Kitsune,
    Neko,
    Okami,
}

/// The path segment for a shibe.online gallery.
pub open spec fn animal_online_path(c: AnimalOnlineChoices) -> Seq<char> {
    match c {
        AnimalOnlineChoices::Bird => "birds"@,
        AnimalOnlineChoices::Shibe => "shibes"@,
        AnimalOnlineChoices::Cat => "cats"@,
    }
}

/// The path segment for a purrbot.site gallery.
pub open spec fn purrbot_path(c: PurrbotImageChoices) -> Seq<char> {
    match c {
        PurrbotImageChoices::Kitsune => "kitsune"@,
        PurrbotImageChoices::Neko => "neko"@,
        PurrbotImageChoices::Okami => "okami"@,
    }
}

impl AnimalOnlineChoices {
    pub fn as_str(&self) -> (r: &'static str)
        ensures
            r@ == animal_online_path(*self),
    {
        match self {
            AnimalOnlineChoices::Bird => "birds",
            AnimalOnlineChoices::Shibe => "shibes",
            AnimalOnlineChoices::Cat => "cats",
        }
    }
}

impl PurrbotImageChoices {
    pub fn as_str(&self) -> (r: &'static str)
        ensures
            r@ == purrbot_path(*self),
    {
        match self {
            PurrbotImageChoices::Kitsune => "kitsune",
            PurrbotImageChoices::Okami => "okami",
            PurrbotImageChoices::Neko => "neko",
        }
    }
}

/// The process-wide immutable configuration injected at startup: the two API
/// keys consumed as opaque strings in query parameters.
pub struct ApiConfig {
    pub cat_api_key: String,
    pub dog_api_key: String,
}

/// One remote random-image endpoint.
pub enum Provider {
    TheCatApi,
    TheDogApi,
    RandomFox,
    ShibeOnline(AnimalOnlineChoices),
    AwsRandomCat,
    RandomDog,
    RandomDuck,
    Purrbot(PurrbotImageChoices),
    /// `true` selects the neko gallery, `false` the waifu gallery.
    WaifuPics(bool),
}

/// The exact URL a provider is fetched from, given the two configured keys.
pub open spec fn provider_url(p: Provider, cat_key: Seq<char>, dog_key: Seq<char>) -> Seq<char> {
    match p {
        Provider::TheCatApi => "https://api.thecatapi.com/v1/images/search?api_key="@ + cat_key,
        Provider::TheDogApi => "https://api.thedogapi.com/v1/images/search?api_key="@ + dog_key,
        Provider::RandomFox => "https://randomfox.ca/floof/"@,
        Provider::ShibeOnline(c) => "http://shibe.online/api/"@ + animal_online_path(c),
        Provider::AwsRandomCat => "https://aws.random.cat/meow"@,
        Provider::RandomDog => "https://random.dog/woof.json"@,
        Provider::RandomDuck => "https://random-d.uk/api/v2/random"@,
        Provider::Purrbot(c) => "https://purrbot.site/api/img/sfw/"@ + purrbot_path(c) + "/img"@,
        Provider::WaifuPics(neko) => "https://api.waifu.pics/sfw/"@
            + if neko { "neko"@ } else { "waifu"@ },
    }
}

impl Provider {
    /// Builds the request URL for one fetch from this provider.
    pub fn request_url(&self, config: &ApiConfig) -> (r: String)
        ensures
            r@ == provider_url(*self, config.cat_api_key@, config.dog_api_key@),
    {
        match self {
            Provider::TheCatApi => String::from_str(
                "https://api.thecatapi.com/v1/images/search?api_key=",
            ).concat(config.cat_api_key.as_str()),
            Provider::TheDogApi => String::from_str(
                "https://api.thedogapi.com/v1/images/search?api_key=",
            ).concat(config.dog_api_key.as_str()),
            Provider::RandomFox => String::from_str("https://randomfox.ca/floof/"),
            Provider::ShibeOnline(c) => String::from_str("http://shibe.online/api/").concat(
                c.as_str(),
            ),
            Provider::AwsRandomCat => String::from_str("https://aws.random.cat/meow"),
            Provider::RandomDog => String::from_str("https://random.dog/woof.json"),
            Provider::RandomDuck => String::from_str("https://random-d.uk/api/v2/random"),
            Provider::Purrbot(c) => String::from_str("https://purrbot.site/api/img/sfw/").concat(
                c.as_str(),
            ).concat("/img"),
            Provider::WaifuPics(neko) => String::from_str("https://api.waifu.pics/sfw/").concat(
                if *neko {
                    "neko"
                } else {
                    "waifu"
                },
            ),
        }
    }
}

/// The literal text posted for the HTTP-status cat lookup.
pub fn http_cat_url(code: i16) -> (r: String)
    ensures
        r@ == "https://http.cat/"@ + dec_of_int(code as int),
{
    String::from_str("https://http.cat/").concat(i16_to_dec(code).as_str())
}

/// The literal text posted for the HTTP-status dog lookup.
pub fn http_dog_url(code: i16) -> (r: String)
    ensures
        r@ == "https://http.dog/"@ + dec_of_int(code as int),
{
    String::from_str("https://http.dog/").concat(i16_to_dec(code).as_str())
}

} // verus!
