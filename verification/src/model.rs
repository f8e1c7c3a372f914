//! The typed resource models and their decoding from a JSON tree.
//!
//! Every successful response body is an envelope `{"data": ...}` whose
//! payload is one resource object or an array of them. A resource object
//! carries its `id` and an `attributes` object with the fields the model
//! keeps; anything else in the object is ignored.

use vstd::prelude::*;
use crate::json::{spec_member, spec_str_member, str_member, Json};

verus! {

/// The envelope every successful response body is shaped as.
#[derive(Debug, PartialEq, Eq)]
pub struct Response<T> {
    pub data: T,
}

/// An anime record.
#[derive(Debug, PartialEq, Eq)]
pub struct Anime {
    pub id: String,
    pub attributes: AnimeAttributes,
}

/// The attributes kept of an anime.
#[derive(Debug, PartialEq, Eq)]
pub struct AnimeAttributes {
    pub canonical_title: String,
    pub slug: String,
}

/// A manga record.
#[derive(Debug, PartialEq, Eq)]
pub struct Manga {
    pub id: String,
    pub attributes: MangaAttributes,
}

/// The attributes kept of a manga.
#[derive(Debug, PartialEq, Eq)]
pub struct MangaAttributes {
    pub canonical_title: String,
    pub slug: String,
}

/// A character record.
#[derive(Debug, PartialEq, Eq)]
pub struct Character {
    pub id: String,
    pub attributes: CharacterAttributes,
}

/// The attributes kept of a character.
#[derive(Debug, PartialEq, Eq)]
pub struct CharacterAttributes {
    pub name: String,
}

/// A producer record.
#[derive(Debug, PartialEq, Eq)]
pub struct Producer {
    pub id: String,
    pub attributes: ProducerAttributes,
}

/// The attributes kept of a producer.
#[derive(Debug, PartialEq, Eq)]
pub struct ProducerAttributes {
    pub name: String,
}

/// A user record.
#[derive(Debug, PartialEq, Eq)]
pub struct User {
    pub id: String,
    pub attributes: UserAttributes,
}

/// The attributes kept of a user.
#[derive(Debug, PartialEq, Eq)]
pub struct UserAttributes {
    pub name: String,
}

/// A model that can be decoded from one JSON value.
pub trait FromJson: Sized {
    /// The model the JSON value decodes to, or `None` where the value does
    /// not have the model's shape.
    spec fn spec_from_json(j: Json) -> Option<Self>;

    /// Decodes one JSON value.
    fn from_json(j: &Json) -> (r: Option<Self>)
        ensures
            r == Self::spec_from_json(*j),
    ;
}

impl FromJson for Anime {
    open spec fn spec_from_json(j: Json) -> Option<Anime> {
        match (spec_str_member(j, "id"@), spec_member(j, "attributes"@)) {
            (Some(id), Some(attrs)) => match (
                spec_str_member(attrs, "canonicalTitle"@),
                spec_str_member(attrs, "slug"@),
            ) {
                (Some(canonical_title), Some(slug)) => Some(
                    Anime { id, attributes: AnimeAttributes { canonical_title, slug } },
                ),
                _ => None,
            },
            _ => None,
        }
    }

    fn from_json(j: &Json) -> (r: Option<Anime>) {
        let id = match str_member(j, &"id".to_owned()) {
            Some(id) => id,
            None => {
                return None;
            },
        };
        let attrs = match crate::json::member(j, &"attributes".to_owned()) {
            Some(attrs) => attrs,
            None => {
                return None;
            },
        };
        let canonical_title = match str_member(attrs, &"canonicalTitle".to_owned()) {
            Some(t) => t,
            None => {
                return None;
            },
        };
        let slug = match str_member(attrs, &"slug".to_owned()) {
            Some(s) => s,
            None => {
                return None;
            },
        };
        Some(Anime { id, attributes: AnimeAttributes { canonical_title, slug } })
    }
}

impl FromJson for Manga {
    open spec fn spec_from_json(j: Json) -> Option<Manga> {
        match (spec_str_member(j, "id"@), spec_member(j, "attributes"@)) {
            (Some(id), Some(attrs)) => match (
                spec_str_member(attrs, "canonicalTitle"@),
                spec_str_member(attrs, "slug"@),
            ) {
                (Some(canonical_title), Some(slug)) => Some(
                    Manga { id, attributes: MangaAttributes { canonical_title, slug } },
                ),
                _ => None,
            },
            _ => None,
        }
    }

    fn from_json(j: &Json) -> (r: Option<Manga>) {
        let id = match str_member(j, &"id".to_owned()) {
            Some(id) => id,
            None => {
                return None;
            },
        };
        let attrs = match crate::json::member(j, &"attributes".to_owned()) {
            Some(attrs) => attrs,
            None => {
                return None;
            },
        };
        let canonical_title = match str_member(attrs, &"canonicalTitle".to_owned()) {
            Some(t) => t,
            None => {
                return None;
            },
        };
        let slug = match str_member(attrs, &"slug".to_owned()) {
            Some(s) => s,
            None => {
                return None;
            },
        };
        Some(Manga { id, attributes: MangaAttributes { canonical_title, slug } })
    }
}

impl FromJson for Character {
    open spec fn spec_from_json(j: Json) -> Option<Character> {
        match (spec_str_member(j, "id"@), spec_member(j, "attributes"@)) {
            (Some(id), Some(attrs)) => match spec_str_member(attrs, "name"@) {
                Some(name) => Some(Character { id, attributes: CharacterAttributes { name } }),
                None => None,
            },
            _ => None,
        }
    }

    fn from_json(j: &Json) -> (r: Option<Character>) {
        let id = match str_member(j, &"id".to_owned()) {
            Some(id) => id,
            None => {
                return None;
            },
        };
        let attrs = match crate::json::member(j, &"attributes".to_owned()) {
            Some(attrs) => attrs,
            None => {
                return None;
            },
        };
        match str_member(attrs, &"name".to_owned()) {
            Some(name) => Some(Character { id, attributes: CharacterAttributes { name } }),
            None => None,
        }
    }
}

impl FromJson for Producer {
    open spec fn spec_from_json(j: Json) -> Option<Producer> {
        match (spec_str_member(j, "id"@), spec_member(j, "attributes"@)) {
            (Some(id), Some(attrs)) => match spec_str_member(attrs, "name"@) {
                Some(name) => Some(Producer { id, attributes: ProducerAttributes { name } }),
                None => None,
            },
            _ => None,
        }
    }

    fn from_json(j: &Json) -> (r: Option<Producer>) {
        let id = match str_member(j, &"id".to_owned()) {
            Some(id) => id,
            None => {
                return None;
            },
        };
        let attrs = match crate::json::member(j, &"attributes".to_owned()) {
            Some(attrs) => attrs,
            None => {
                return None;
            },
        };
        match str_member(attrs, &"name".to_owned()) {
            Some(name) => Some(Producer { id, attributes: ProducerAttributes { name } }),
            None => None,
        }
    }
}

impl FromJson for User {
    open spec fn spec_from_json(j: Json) -> Option<User> {
        match (spec_str_member(j, "id"@), spec_member(j, "attributes"@)) {
            (Some(id), Some(attrs)) => match spec_str_member(attrs, "name"@) {
                Some(name) => Some(User { id, attributes: UserAttributes { name } }),
                None => None,
            },
            _ => None,
        }
    }

    fn from_json(j: &Json) -> (r: Option<User>) {
        let id = match str_member(j, &"id".to_owned()) {
            Some(id) => id,
            None => {
                return None;
            },
        };
        let attrs = match crate::json::member(j, &"attributes".to_owned()) {
            Some(attrs) => attrs,
            None => {
                return None;
            },
        };
        match str_member(attrs, &"name".to_owned()) {
            Some(name) => Some(User { id, attributes: UserAttributes { name } }),
            None => None,
        }
    }
}

/// The models a sequence of JSON values decodes to, or `None` where any
/// element fails to decode.
pub open spec fn spec_items<T: FromJson>(items: Seq<Json>) -> Option<Seq<T>>
    decreases items.len(),
{
    if items.len() == 0 {
        Some(Seq::empty())
    } else {
        match (spec_items::<T>(items.drop_last()), T::spec_from_json(items.last())) {
            (Some(rest), Some(t)) => Some(rest.push(t)),
            _ => None,
        }
    }
}

/// The model list a JSON value decodes to: the value must be an array and
/// every element must decode.
pub open spec fn spec_list_from_json<T: FromJson>(j: Json) -> Option<Seq<T>> {
    match j {
        Json::Arr(items) => spec_items::<T>(items@),
        _ => None,
    }
}

/// Where one element fails to decode, the whole list does.
proof fn lemma_items_elem_none<T: FromJson>(items: Seq<Json>, i: int)
    requires
        0 <= i < items.len(),
        T::spec_from_json(items[i]) is None,
    ensures
        spec_items::<T>(items) is None,
    decreases items.len(),
{
    if i < items.len() - 1 {
        lemma_items_elem_none::<T>(items.drop_last(), i);
    }
}

/// Decodes a JSON array of models.
pub fn list_from_json<T: FromJson>(j: &Json) -> (r: Option<Vec<T>>)
    ensures
        r is Some <==> spec_list_from_json::<T>(*j) is Some,
        r is Some ==> Some(r->Some_0@) == spec_list_from_json::<T>(*j),
{
    match j {
        Json::Arr(items) => {
            let n = items.len();
            let mut out: Vec<T> = Vec::new();
            let mut i: usize = 0;
            proof {
                assert(items@.take(0) =~= Seq::<Json>::empty());
            }
            while i < n
                invariant
                    i <= n,
                    n == items@.len(),
                    spec_list_from_json::<T>(*j) == spec_items::<T>(items@),
                    Some(out@) == spec_items::<T>(items@.take(i as int)),
                decreases n - i,
            {
                let item = &items[i];
                proof {
                    assert(*item == items@[i as int]);
                }
                match T::from_json(item) {
                    Some(t) => {
                        out.push(t);
                        proof {
                            let taken = items@.take(i + 1int);
                            assert(taken.drop_last() =~= items@.take(i as int));
                            assert(taken.last() == items@[i as int]);
                        }
                        i = i + 1;
                    },
                    None => {
                        proof {
                            assert(T::spec_from_json(items@[i as int]) is None);
                            lemma_items_elem_none::<T>(items@, i as int);
                            assert(spec_items::<T>(items@) is None);
                            assert(spec_list_from_json::<T>(*j) is None);
                        }
                        return None;
                    },
                }
            }
            proof {
                assert(items@.take(n as int) =~= items@);
            }
            Some(out)
        },
        _ => None,
    }
}

} // verus!
