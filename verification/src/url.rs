//! Request URL construction.
//!
//! Every URL starts at the fixed API base. A get-by-id URL is
//! `{base}/{path}/{id}` and a search URL is `{base}/{path}?{query}`, where
//! `{path}` is the resource's endpoint path and `{query}` the encoded filter
//! list.

use vstd::prelude::*;
use vstd::string::StringExecFns;
use crate::encoding::{ascii_chars, ascii_to_string};
use crate::query::{encode_query, Search};
use crate::{api_url, spec_api_url};

verus! {

/// The resource kinds the service exposes.
#[derive(Clone, Copy, PartialEq, Eq, Debug)]
pub enum Resource {
    Anime,
    Manga,
    Character,
    Producer,
    User,
}

impl Resource {
    /// The endpoint path of the resource. Most paths are the plural of the
    /// resource's name; `anime` and `manga` are invariant under
    /// pluralization, and the producer endpoint is singular.
    pub open spec fn spec_path(self) -> Seq<char> {
        match self {
            Resource::Anime => "anime"@,
            Resource::Manga => "manga"@,
            Resource::Character => "characters"@,
            Resource::Producer => "producer"@,
            Resource::User => "users"@,
        }
    }

    /// The endpoint path of the resource.
    pub fn path(self) -> (r: &'static str)
        ensures
            r@ == self.spec_path(),
    {
        match self {
            Resource::Anime => "anime",
            Resource::Manga => "manga",
            Resource::Character => "characters",
            Resource::Producer => "producer",
            Resource::User => "users",
        }
    }
}

/// The ASCII digits of `n` in decimal, most significant first.
pub open spec fn spec_digits(n: nat) -> Seq<u8>
    decreases n,
{
    if n < 10 {
        seq![(n + 0x30) as u8]
    } else {
        spec_digits(n / 10).push((n % 10 + 0x30) as u8)
    }
}

/// The decimal rendering of `n` as characters.
pub open spec fn spec_decimal(n: nat) -> Seq<char> {
    ascii_chars(spec_digits(n))
}

/// Every decimal digit byte is ASCII.
proof fn lemma_digits_ascii(n: nat)
    ensures
        forall|i: int| 0 <= i < spec_digits(n).len() ==> spec_digits(n)[i] < 0x80,
    decreases n,
{
    if n >= 10 {
        lemma_digits_ascii(n / 10);
        assert(n % 10 < 10);
        assert(spec_digits(n) == spec_digits(n / 10).push((n % 10 + 0x30) as u8));
        assert(forall|i: int|
            0 <= i < spec_digits(n).len() - 1 ==> spec_digits(n)[i] == spec_digits(n / 10)[i]);
    } else {
        assert(spec_digits(n) == seq![(n + 0x30) as u8]);
    }
}

/// Appends the decimal digits of `n` to `out`.
fn push_digits(n: u64, out: &mut Vec<u8>)
    ensures
        final(out)@ == old(out)@ + spec_digits(n as nat),
    decreases n,
{
    if n >= 10 {
        proof {
            assert(n as nat / 10 < n as nat) by (nonlinear_arith)
                requires
                    n >= 10,
            ;
        }
        push_digits(n / 10, out);
        out.push((n % 10) as u8 + 0x30);
        proof {
            assert(out@ =~= old(out)@ + spec_digits(n as nat));
        }
    } else {
        out.push(n as u8 + 0x30);
        proof {
            assert(out@ =~= old(out)@ + spec_digits(n as nat));
        }
    }
}

/// Renders an id in decimal.
pub fn decimal_string(n: u64) -> (r: String)
    ensures
        r@ == spec_decimal(n as nat),
{
    let mut digits: Vec<u8> = Vec::new();
    push_digits(n, &mut digits);
    proof {
        lemma_digits_ascii(n as nat);
        assert(digits@ =~= spec_digits(n as nat));
    }
    ascii_to_string(digits)
}

/// The URL of a get-by-id request: `{base}/{path}/{id}`, with no query string.
pub open spec fn spec_get_url(resource: Resource, id: u64) -> Seq<char> {
    spec_api_url() + "/"@ + resource.spec_path() + "/"@ + spec_decimal(id as nat)
}

/// The URL of a search request: `{base}/{path}?{query}`.
pub open spec fn spec_search_url(resource: Resource, filters: Seq<(Seq<char>, Seq<char>)>) -> Seq<
    char,
> {
    spec_api_url() + "/"@ + resource.spec_path() + "?"@ + ascii_chars(encode_query(filters))
}

/// Builds the URL that fetches one resource by id.
pub fn get_url(resource: Resource, id: u64) -> (r: String)
    ensures
        r@ == spec_get_url(resource, id),
{
    let mut url = api_url().to_owned();
    url.append("/");
    url.append(resource.path());
    url.append("/");
    let digits = decimal_string(id);
    url.append(digits.as_str());
    proof {
        assert(url@ =~= spec_get_url(resource, id));
    }
    url
}

/// Builds the URL that searches a resource with the given filters.
pub fn search_url(resource: Resource, search: &Search) -> (r: String)
    ensures
        r@ == spec_search_url(resource, search@),
{
    let mut url = api_url().to_owned();
    url.append("/");
    url.append(resource.path());
    url.append("?");
    let query = search.query_string();
    url.append(query.as_str());
    proof {
        assert(url@ =~= spec_search_url(resource, search@));
    }
    url
}

} // verus!
