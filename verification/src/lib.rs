//! A typed client library for the Kitsu media-catalog API.
//!
//! The library builds request URLs for the service's resource endpoints,
//! encodes search filters into query strings, and turns transport responses
//! (a status code and a body) into typed results or a typed error.

pub mod encoding;
pub mod json;
pub mod model;
pub mod query;
pub mod response;
pub mod url;

pub use model::{
    Anime, AnimeAttributes, Character, CharacterAttributes, FromJson, Manga, MangaAttributes,
    Producer, ProducerAttributes, Response, User, UserAttributes,
};
pub use query::Search;
pub use response::{
    classify, decode_body, decode_list_body, handle_list_response, handle_response, Error,
    HttpResponse,
};
pub use url::{get_url, search_url, Resource};

use vstd::prelude::*;

verus! {

/// Base URL of the service that every request URL starts with.
pub open spec fn spec_api_url() -> Seq<char> {
    "https://kitsu.io/api/edge"@
}

/// Root of the service the client talks to.
pub fn api_url() -> (r: &'static str)
    ensures
        r@ == spec_api_url(),
{
    "https://kitsu.io/api/edge"
}

} // verus!
