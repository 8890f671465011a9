use watchwise_server::media::{MediaType, OMDSearchParams};

#[test]
fn wire_names_are_lower_case_words() {
    assert_eq!(MediaType::Movie.wire_name(), "movie");
    assert_eq!(MediaType::Series.wire_name(), "series");
    assert_eq!(MediaType::Episode.wire_name(), "episode");
}

#[test]
fn wire_names_read_back() {
    for t in [MediaType::Movie, MediaType::Series, MediaType::Episode] {
        assert_eq!(MediaType::from_wire(&t.wire_name()), Some(t));
    }
}

#[test]
fn unknown_wire_names_are_refused() {
    assert_eq!(MediaType::from_wire("Movie"), None);
    assert_eq!(MediaType::from_wire("game"), None);
    assert_eq!(MediaType::from_wire(""), None);
    assert_eq!(MediaType::from_wire("movies"), None);
}

#[test]
fn new_params_leave_optional_fields_absent() {
    let p = OMDSearchParams::new("alien".to_string(), Some(MediaType::Series));
    assert_eq!(p.search, "alien");
    assert_eq!(p.type_, Some(MediaType::Series));
    assert_eq!(p.year, None);
    assert_eq!(p.page, None);
    assert_eq!(p.version, None);
}
