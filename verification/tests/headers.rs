use http::header::Entry as Entry0;
use http::header::HeaderName as HeaderName0;
use http::header::HeaderValue as HeaderValue0;
use http::HeaderMap as HeaderMap0;
use hyper::header::HeaderName as HeaderName1;
use hyper::header::HeaderValue as HeaderValue1;
use hyper::HeaderMap as HeaderMap1;
use hyper_compat::error::ConversionError;
use hyper_compat::headers::{convert_headers_0x_to_1x, convert_headers_1x_to_0x};

/// Longer than what the crates check when a map takes a static text as a name.
const LONG_TEXT_WITH_SPACE: &str =
    "aaaaaaaaaaaaaaaaaaaaaaaaaaaaaaaaaaaaaaaaaaaaaaaaaaaaaaaaaaaaaaaaaaaaaa a";

fn map_0x(fields: &[(&str, &[u8])]) -> HeaderMap0 {
    let mut map = HeaderMap0::new();
    for (name, value) in fields {
        map.append(
            HeaderName0::from_bytes(name.as_bytes()).unwrap(),
            HeaderValue0::from_bytes(value).unwrap(),
        );
    }
    map
}

fn map_1x(fields: &[(&str, &[u8])]) -> HeaderMap1 {
    let mut map = HeaderMap1::new();
    for (name, value) in fields {
        map.append(
            HeaderName1::from_bytes(name.as_bytes()).unwrap(),
            HeaderValue1::from_bytes(value).unwrap(),
        );
    }
    map
}

/// A value made from a name that a map took unchecked.
fn value_with_control_character_0x() -> HeaderValue0 {
    let mut map = HeaderMap0::new();
    map.insert(LONG_TEXT_WITH_SPACE, HeaderValue0::from_static("v"));
    HeaderValue0::from(map.keys().next().unwrap().clone())
}

fn listed_0x(map: &HeaderMap0) -> Vec<(String, Vec<u8>)> {
    map.iter().map(|(name, value)| (name.as_str().to_owned(), value.as_bytes().to_vec())).collect()
}

fn listed_1x(map: &HeaderMap1) -> Vec<(String, Vec<u8>)> {
    map.iter().map(|(name, value)| (name.as_str().to_owned(), value.as_bytes().to_vec())).collect()
}

#[test]
fn empty_maps_convert() {
    assert!(convert_headers_0x_to_1x(HeaderMap0::new()).unwrap().is_empty());
    assert!(convert_headers_1x_to_0x(HeaderMap1::new()).unwrap().is_empty());
}

#[test]
fn names_and_values_keep_their_order() {
    let fields: [(&str, &[u8]); 6] = [
        ("Set-Cookie", b"a=1"),
        ("host", b"localhost"),
        ("set-cookie", b"b=2"),
        ("x-bytes", b"\t \xff\x80~"),
        ("SET-COOKIE", b"a=1"),
        ("x-empty", b""),
    ];
    let expected: Vec<(String, Vec<u8>)> = vec![
        ("set-cookie".to_owned(), b"a=1".to_vec()),
        ("set-cookie".to_owned(), b"b=2".to_vec()),
        ("set-cookie".to_owned(), b"a=1".to_vec()),
        ("host".to_owned(), b"localhost".to_vec()),
        ("x-bytes".to_owned(), b"\t \xff\x80~".to_vec()),
        ("x-empty".to_owned(), b"".to_vec()),
    ];
    assert_eq!(listed_1x(&convert_headers_0x_to_1x(map_0x(&fields)).unwrap()), expected);
    assert_eq!(listed_0x(&convert_headers_1x_to_0x(map_1x(&fields)).unwrap()), expected);
}

#[test]
fn every_character_of_a_modern_name_goes_both_ways() {
    let name = "!#$%&'*+-.^_`|~0123456789abcdefghijklmnopqrstuvwxyz";
    let start = map_1x(&[(name, b"v")]);
    let there = convert_headers_1x_to_0x(start.clone()).unwrap();
    assert_eq!(listed_0x(&there), vec![(name.to_owned(), b"v".to_vec())]);
    assert_eq!(convert_headers_0x_to_1x(there).unwrap(), start);
}

#[test]
fn header_maps_come_back_as_they_were() {
    let start = map_0x(&[("a", b"1"), ("b", b"2"), ("a", b"3"), ("c", b""), ("b", b"2")]);
    let there = convert_headers_0x_to_1x(start.clone()).unwrap();
    assert_eq!(there.len(), 5);
    let back = convert_headers_1x_to_0x(there).unwrap();
    assert_eq!(listed_0x(&back), listed_0x(&start));
}

#[test]
fn conversion_commutes_with_append_on_known_and_new_names() {
    for name in ["a", "new"] {
        let start = map_1x(&[("a", b"1"), ("b", b"2"), ("a", b"3")]);
        let mut grown = start.clone();
        let mut value = HeaderValue1::from_static("v");
        value.set_sensitive(true);
        grown.append(name, value);
        let mut expected = convert_headers_1x_to_0x(start).unwrap();
        expected.append(name, HeaderValue0::from_static("v"));
        assert_eq!(listed_0x(&convert_headers_1x_to_0x(grown).unwrap()), listed_0x(&expected));

        let start = map_0x(&[("a", b"1"), ("b", b"2"), ("a", b"3")]);
        let mut grown = start.clone();
        grown.append(name, HeaderValue0::from_static("v"));
        let mut expected = convert_headers_0x_to_1x(start).unwrap();
        expected.append(name, HeaderValue1::from_static("v"));
        assert_eq!(listed_1x(&convert_headers_0x_to_1x(grown).unwrap()), listed_1x(&expected));
    }
}

#[test]
fn sensitive_marks_are_dropped() {
    let mut secret = HeaderValue0::from_static("secret");
    secret.set_sensitive(true);
    let mut map = HeaderMap0::new();
    map.insert("authorization", secret);
    let there = convert_headers_0x_to_1x(map).unwrap();
    assert_eq!(there["authorization"], "secret");
    assert!(!there["authorization"].is_sensitive());

    let mut secret = HeaderValue1::from_static("secret");
    secret.set_sensitive(true);
    let mut map = HeaderMap1::new();
    map.insert("authorization", secret);
    let there = convert_headers_1x_to_0x(map).unwrap();
    assert_eq!(there["authorization"], "secret");
    assert!(!there["authorization"].is_sensitive());
}

#[test]
fn a_quoted_name_is_a_legacy_name_only() {
    let map = map_0x(&[("fine", b"1"), ("x\"y", b"2"), ("also-fine", b"3")]);
    assert_eq!(convert_headers_0x_to_1x(map).unwrap_err(), ConversionError::HeaderName);
    assert!(HeaderName1::from_bytes(b"x\"y").is_err());
}

#[test]
fn a_name_that_a_map_took_unchecked_is_refused() {
    let mut map = HeaderMap1::new();
    map.insert(LONG_TEXT_WITH_SPACE, HeaderValue1::from_static("v"));
    assert_eq!(convert_headers_1x_to_0x(map).unwrap_err(), ConversionError::HeaderName);

    let mut map = HeaderMap0::new();
    map.insert(LONG_TEXT_WITH_SPACE, HeaderValue0::from_static("v"));
    assert_eq!(convert_headers_0x_to_1x(map).unwrap_err(), ConversionError::HeaderName);
}

#[test]
fn a_value_with_a_control_character_is_refused() {
    let mut map = HeaderMap1::new();
    map.insert(LONG_TEXT_WITH_SPACE, HeaderValue1::from_static("v"));
    let name = map.keys().next().unwrap().clone();
    let mut map = map_1x(&[("fine", b"1")]);
    map.append("odd", HeaderValue1::from(name));
    assert_eq!(convert_headers_1x_to_0x(map).unwrap_err(), ConversionError::HeaderValue);

    let mut map = map_0x(&[("fine", b"1")]);
    map.append("odd", value_with_control_character_0x());
    map.append(HeaderName0::from_bytes(b"x\"y").unwrap(), HeaderValue0::from_static("v"));
    assert_eq!(convert_headers_0x_to_1x(map).unwrap_err(), ConversionError::HeaderValue);
}

#[test]
fn a_full_map_converts_until_it_must_grow() {
    let mut map = HeaderMap0::new();
    for i in 0..24575 {
        map.append(
            HeaderName0::from_bytes(format!("h{}", i).as_bytes()).unwrap(),
            HeaderValue0::from_static("v"),
        );
    }
    let mut full = map.clone();
    full.append("last", HeaderValue0::from_static("v"));
    let there = convert_headers_0x_to_1x(full).unwrap();
    assert_eq!(there.keys_len(), 24576);

    match map.entry("last") {
        Entry0::Vacant(vacant) => {
            let mut last = vacant.insert_entry(HeaderValue0::from_static("v"));
            last.append(HeaderValue0::from_static("w"));
        }
        Entry0::Occupied(_) => panic!("the name is new"),
    }
    assert_eq!(map.keys_len(), 24576);
    let mut faulty = map.clone();
    *faulty.get_mut("h6000").unwrap() = value_with_control_character_0x();
    assert_eq!(convert_headers_0x_to_1x(faulty).unwrap_err(), ConversionError::HeaderValue);
    assert_eq!(convert_headers_0x_to_1x(map).unwrap_err(), ConversionError::TooManyHeaders);
}
