use watchwise_server::media::{MediaType, OMDSearchParams};
use watchwise_server::query::{query_pairs_for, search_url, UpstreamConfig};

fn config() -> UpstreamConfig {
    UpstreamConfig {
        base_url: "https://www.omdbapi.com/".to_string(),
        api_key: "k3y".to_string(),
    }
}

fn pair(k: &str, v: &str) -> (String, String) {
    (k.to_string(), v.to_string())
}

#[test]
fn url_holds_key_term_and_type() {
    let p = OMDSearchParams::new("batman".to_string(), Some(MediaType::Movie));
    assert_eq!(
        search_url(&config(), &p),
        "https://www.omdbapi.com/?apikey=k3y&s=batman&type=movie"
    );
}

#[test]
fn absent_type_is_left_out() {
    let p = OMDSearchParams::new("batman".to_string(), None);
    assert_eq!(search_url(&config(), &p), "https://www.omdbapi.com/?apikey=k3y&s=batman");
}

#[test]
fn empty_term_is_still_sent() {
    let p = OMDSearchParams::new(String::new(), Some(MediaType::Episode));
    assert_eq!(
        search_url(&config(), &p),
        "https://www.omdbapi.com/?apikey=k3y&s=&type=episode"
    );
}

#[test]
fn term_is_form_encoded() {
    let p = OMDSearchParams::new("star wars & co".to_string(), None);
    assert_eq!(
        search_url(&config(), &p),
        "https://www.omdbapi.com/?apikey=k3y&s=star+wars+%26+co"
    );
}

#[test]
fn every_present_field_is_sent_in_order() {
    let p = OMDSearchParams {
        search: "alien".to_string(),
        type_: Some(MediaType::Series),
        year: Some("1979".to_string()),
        page: Some(255),
        version: Some(1),
    };
    assert_eq!(
        query_pairs_for(&"k3y".to_string(), &p),
        vec![
            pair("apikey", "k3y"),
            pair("s", "alien"),
            pair("type", "series"),
            pair("y", "1979"),
            pair("page", "255"),
            pair("v", "1"),
        ]
    );
    assert_eq!(
        search_url(&config(), &p),
        "https://www.omdbapi.com/?apikey=k3y&s=alien&type=series&y=1979&page=255&v=1"
    );
}

#[test]
fn numbers_are_written_in_decimal() {
    for (n, text) in [(0u8, "0"), (7, "7"), (10, "10"), (42, "42"), (100, "100"), (109, "109")] {
        let p = OMDSearchParams {
            search: "x".to_string(),
            type_: None,
            year: None,
            page: Some(n),
            version: None,
        };
        let pairs = query_pairs_for(&"k".to_string(), &p);
        assert_eq!(pairs[2], pair("page", text));
    }
}

#[test]
fn empty_year_is_left_out() {
    let p = OMDSearchParams {
        search: "alien".to_string(),
        type_: None,
        year: Some(String::new()),
        page: None,
        version: None,
    };
    assert_eq!(
        query_pairs_for(&"k".to_string(), &p),
        vec![pair("apikey", "k"), pair("s", "alien")]
    );
}
