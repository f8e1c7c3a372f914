//! The response pipeline: status dispatch, decoding, and the error taxonomy.

use kitsu::{
    handle_list_response, handle_response, Anime, Character, Error, HttpResponse, Manga, Producer,
    Response, User,
};

fn ok_response(body: &str) -> HttpResponse {
    HttpResponse { status: 200, body: body.to_string() }
}

const ANIME_BODY: &str = r#"{
    "data": {
        "id": "1",
        "type": "anime",
        "attributes": {
            "slug": "cowboy-bebop",
            "canonicalTitle": "Cowboy Bebop",
            "averageRating": "82.91"
        }
    }
}"#;

#[test]
fn status_200_decodes_into_typed_envelope() {
    let result: Result<Response<Anime>, Error> = handle_response(ok_response(ANIME_BODY));
    let envelope = result.expect("a 200 response with a well-formed body decodes");
    assert_eq!(envelope.data.id, "1");
    assert_eq!(envelope.data.attributes.canonical_title, "Cowboy Bebop");
    assert_eq!(envelope.data.attributes.slug, "cowboy-bebop");
}

#[test]
fn status_400_yields_bad_request_owning_the_response() {
    let result: Result<Response<Anime>, Error> = handle_response(HttpResponse {
        status: 400,
        body: "bad filter".to_string(),
    });
    match result {
        Err(Error::BadRequest(resp)) => {
            assert_eq!(resp.status, 400);
            assert_eq!(resp.body, "bad filter");
        }
        other => panic!("expected a bad-request error, got {:?}", other),
    }
}

#[test]
fn status_401_yields_unauthorized_owning_the_response() {
    let result: Result<Response<User>, Error> = handle_response(HttpResponse {
        status: 401,
        body: "who are you".to_string(),
    });
    match result {
        Err(Error::Unauthorized(resp)) => {
            assert_eq!(resp.status, 401);
            assert_eq!(resp.body, "who are you");
        }
        other => panic!("expected an unauthorized error, got {:?}", other),
    }
}

#[test]
fn other_statuses_yield_invalid_response() {
    for status in [204u16, 301, 404, 500] {
        let result: Result<Response<Manga>, Error> = handle_response(HttpResponse {
            status,
            body: "nope".to_string(),
        });
        match result {
            Err(Error::InvalidResponse(resp)) => {
                assert_eq!(resp.status, status);
                assert_eq!(resp.body, "nope");
            }
            other => panic!("expected an invalid-response error, got {:?}", other),
        }
    }
}

#[test]
fn unparseable_body_yields_deserialization_error() {
    let result: Result<Response<Anime>, Error> = handle_response(ok_response("{not json"));
    assert!(matches!(result, Err(Error::Deserialization(_))));
}

#[test]
fn wrong_shape_yields_deserialization_error() {
    let missing_data: Result<Response<Anime>, Error> =
        handle_response(ok_response(r#"{"info": "no data member"}"#));
    assert!(matches!(missing_data, Err(Error::Deserialization(_))));

    let data_not_object: Result<Response<Anime>, Error> =
        handle_response(ok_response(r#"{"data": 5}"#));
    assert!(matches!(data_not_object, Err(Error::Deserialization(_))));

    let missing_attribute: Result<Response<Anime>, Error> = handle_response(ok_response(
        r#"{"data": {"id": "1", "attributes": {"slug": "s"}}}"#,
    ));
    assert!(matches!(missing_attribute, Err(Error::Deserialization(_))));
}

#[test]
fn list_body_decodes_every_element_in_order() {
    let body = r#"{
        "data": [
            {"id": "1", "attributes": {"canonicalTitle": "Orange", "slug": "orange"}},
            {"id": "2", "attributes": {"canonicalTitle": "Say I Love You", "slug": "say-i-love-you"}}
        ]
    }"#;
    let result: Result<Response<Vec<Manga>>, Error> = handle_list_response(ok_response(body));
    let envelope = result.expect("a well-formed list body decodes");
    assert_eq!(envelope.data.len(), 2);
    assert_eq!(envelope.data[0].id, "1");
    assert_eq!(envelope.data[0].attributes.canonical_title, "Orange");
    assert_eq!(envelope.data[1].id, "2");
    assert_eq!(envelope.data[1].attributes.slug, "say-i-love-you");
}

#[test]
fn empty_list_body_decodes_to_empty_vec() {
    let result: Result<Response<Vec<Anime>>, Error> =
        handle_list_response(ok_response(r#"{"data": []}"#));
    assert_eq!(result.expect("an empty list decodes").data.len(), 0);
}

#[test]
fn list_with_one_bad_element_fails_as_a_whole() {
    let body = r#"{
        "data": [
            {"id": "1", "attributes": {"canonicalTitle": "Orange", "slug": "orange"}},
            {"id": "2", "attributes": {}}
        ]
    }"#;
    let result: Result<Response<Vec<Manga>>, Error> = handle_list_response(ok_response(body));
    assert!(matches!(result, Err(Error::Deserialization(_))));
}

#[test]
fn character_producer_and_user_records_decode() {
    let character: Result<Response<Character>, Error> = handle_response(ok_response(
        r#"{"data": {"id": "9", "attributes": {"name": "Spike Spiegel"}}}"#,
    ));
    assert_eq!(character.unwrap().data.attributes.name, "Spike Spiegel");

    let producer: Result<Response<Producer>, Error> = handle_response(ok_response(
        r#"{"data": {"id": "3", "attributes": {"name": "Sunrise"}}}"#,
    ));
    assert_eq!(producer.unwrap().data.attributes.name, "Sunrise");

    let user: Result<Response<User>, Error> = handle_response(ok_response(
        r#"{"data": {"id": "5", "attributes": {"name": "vikhyat"}}}"#,
    ));
    assert_eq!(user.unwrap().data.id, "5");
}

#[test]
fn extra_members_are_ignored() {
    let body = r#"{
        "meta": {"count": 1},
        "data": {
            "id": "8",
            "type": "anime",
            "links": {"self": "x"},
            "attributes": {"canonicalTitle": "T", "slug": "t", "episodeCount": 26, "nsfw": false}
        }
    }"#;
    let result: Result<Response<Anime>, Error> = handle_response(ok_response(body));
    assert_eq!(result.unwrap().data.id, "8");
}

#[test]
fn interleaved_calls_do_not_interfere() {
    let anime_first: Result<Response<Anime>, Error> = handle_response(ok_response(ANIME_BODY));
    let manga: Result<Response<Manga>, Error> = handle_response(ok_response(
        r#"{"data": {"id": "1", "attributes": {"canonicalTitle": "Orange", "slug": "orange"}}}"#,
    ));
    let anime_again: Result<Response<Anime>, Error> = handle_response(ok_response(ANIME_BODY));

    let first = anime_first.unwrap();
    let again = anime_again.unwrap();
    assert_eq!(first, again);
    assert_eq!(manga.unwrap().data.attributes.canonical_title, "Orange");
}
