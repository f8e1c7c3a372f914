//! URL construction for every resource endpoint.

use kitsu::{get_url, search_url, Resource, Search};

#[test]
fn get_anime_url() {
    assert_eq!(get_url(Resource::Anime, 1), "https://kitsu.io/api/edge/anime/1");
}

#[test]
fn get_manga_url() {
    assert_eq!(get_url(Resource::Manga, 10), "https://kitsu.io/api/edge/manga/10");
}

#[test]
fn get_character_url_is_pluralized() {
    assert_eq!(get_url(Resource::Character, 7), "https://kitsu.io/api/edge/characters/7");
}

#[test]
fn get_producer_url_is_singular() {
    assert_eq!(get_url(Resource::Producer, 3), "https://kitsu.io/api/edge/producer/3");
}

#[test]
fn get_user_url_is_pluralized() {
    assert_eq!(get_url(Resource::User, 42), "https://kitsu.io/api/edge/users/42");
}

#[test]
fn get_url_renders_large_ids() {
    assert_eq!(
        get_url(Resource::Anime, 1234567890),
        "https://kitsu.io/api/edge/anime/1234567890"
    );
    assert_eq!(
        get_url(Resource::Anime, u64::MAX),
        "https://kitsu.io/api/edge/anime/18446744073709551615"
    );
}

#[test]
fn get_url_has_no_query_string() {
    let url = get_url(Resource::Anime, 5);
    assert!(!url.contains('?'));
    assert!(!url.contains('&'));
}

#[test]
fn search_url_appends_encoded_filters() {
    let search = Search::new().filter("text", "non non biyori");
    assert_eq!(
        search_url(Resource::Anime, &search),
        "https://kitsu.io/api/edge/anime?text=non%20non%20biyori"
    );
}

#[test]
fn search_url_with_empty_filters_has_empty_query() {
    let search = Search::new();
    assert_eq!(search_url(Resource::Manga, &search), "https://kitsu.io/api/edge/manga?");
}

#[test]
fn search_characters_url() {
    let search = Search::new().filter("name", "spike");
    assert_eq!(
        search_url(Resource::Character, &search),
        "https://kitsu.io/api/edge/characters?name=spike"
    );
}

#[test]
fn search_users_url() {
    let search = Search::new().filter("name", "vikhyat");
    assert_eq!(
        search_url(Resource::User, &search),
        "https://kitsu.io/api/edge/users?name=vikhyat"
    );
}
