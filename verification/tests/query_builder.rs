//! The query builder: insertion order, percent-encoding, empty queries.

use kitsu::Search;

#[test]
fn encodes_space_as_percent_20() {
    let q = Search::new().filter("text", "non non biyori").query_string();
    assert_eq!(q, "text=non%20non%20biyori");
}

#[test]
fn empty_builder_encodes_to_empty_string() {
    let q = Search::new().query_string();
    assert_eq!(q, "");
}

#[test]
fn preserves_insertion_order() {
    let q = Search::new()
        .filter("text", "orange")
        .filter("season", "fall")
        .filter("year", "2016")
        .query_string();
    assert_eq!(q, "text=orange&season=fall&year=2016");
}

#[test]
fn duplicate_keys_both_appear() {
    let q = Search::new().filter("tag", "a").filter("tag", "b").query_string();
    assert_eq!(q, "tag=a&tag=b");
}

#[test]
fn escapes_reserved_characters_in_key_and_value() {
    let q = Search::new().filter("a&b", "c=d/e?f#g").query_string();
    assert_eq!(q, "a%26b=c%3Dd%2Fe%3Ff%23g");
}

#[test]
fn keeps_unreserved_characters() {
    let q = Search::new().filter("k", "AZaz09-._~").query_string();
    assert_eq!(q, "k=AZaz09-._~");
}

#[test]
fn escapes_multi_byte_characters_bytewise() {
    let q = Search::new().filter("text", "caf\u{e9}").query_string();
    assert_eq!(q, "text=caf%C3%A9");
}

#[test]
fn builder_default_is_empty() {
    let q = Search::default().filter("name", "vikhyat").query_string();
    assert_eq!(q, "name=vikhyat");
}

#[test]
fn len_counts_added_pairs() {
    let s = Search::new().filter("a", "1").filter("b", "2");
    assert_eq!(s.len(), 2);
}
