use http::header::{
    HeaderMap, HeaderName, HeaderValue, ACCEPT, AUTHORIZATION, CONTENT_LENGTH, CONTENT_TYPE, HOST,
    USER_AGENT,
};
use rest_request::constants;
use rest_request::headers::{has_room_for, MAX_NAMES};
use rest_request::merge::{fill_missing, working_headers};

fn value(text: &'static str) -> HeaderValue {
    HeaderValue::from_static(text)
}

#[test]
fn working_set_without_caller_headers() {
    let working = working_headers(&None, "abc", None).unwrap();
    assert_eq!(working.len(), 3);
    assert_eq!(working.get(USER_AGENT), Some(&value(constants::USER_AGENT)));
    assert_eq!(working.get(AUTHORIZATION), Some(&value("abc")));
    assert_eq!(working.get(CONTENT_LENGTH), Some(&value("0")));
    assert!(!working.contains_key(CONTENT_TYPE));
}

#[test]
fn working_set_with_body() {
    let body: &[u8] = b"0123456789";
    let working = working_headers(&None, "abc", Some(body)).unwrap();
    assert_eq!(working.len(), 4);
    assert_eq!(working.get(CONTENT_TYPE), Some(&value("application/json")));
    assert_eq!(working.get(CONTENT_TYPE), Some(&value(constants::JSON_CONTENT)));
    assert_eq!(working.get(CONTENT_LENGTH), Some(&value("10")));
}

#[test]
fn working_set_starts_from_a_copy() {
    let mut given = HeaderMap::new();
    given.insert(ACCEPT, value("*/*"));
    given.insert(AUTHORIZATION, value("old"));
    given.append(CONTENT_LENGTH, value("1"));
    given.append(CONTENT_LENGTH, value("2"));
    let explicit = Some(given.clone());
    let working = working_headers(&explicit, "new", None).unwrap();
    assert_eq!(explicit, Some(given));
    assert_eq!(working.len(), 3);
    assert_eq!(working.get(ACCEPT), Some(&value("*/*")));
    assert_eq!(working.get(AUTHORIZATION), Some(&value("new")));
    assert_eq!(working.get(CONTENT_LENGTH), Some(&value("0")));
    assert!(!working.contains_key(USER_AGENT));
    assert!(!working.contains_key(CONTENT_TYPE));
}

#[test]
fn working_set_keeps_caller_content_type() {
    let mut given = HeaderMap::new();
    given.insert(CONTENT_TYPE, value("text/plain"));
    let body: &[u8] = b"{}";
    let working = working_headers(&Some(given), "t", Some(body)).unwrap();
    assert_eq!(working.get(CONTENT_TYPE), Some(&value("text/plain")));
    assert_eq!(working.get(CONTENT_LENGTH), Some(&value("2")));
}

#[test]
fn working_set_refuses_a_bad_token() {
    assert!(working_headers(&None, "a\rb", None).is_err());
    assert!(working_headers(&None, "a\u{0}b", None).is_err());
    assert!(working_headers(&Some(HeaderMap::new()), "\u{1f}", None).is_err());
    assert!(working_headers(&None, "", None).is_ok());
    assert!(working_headers(&None, " ~\t", None).is_ok());
}

#[test]
fn fill_missing_never_overwrites() {
    let mut base = HeaderMap::new();
    base.insert(AUTHORIZATION, value("transport"));
    base.append(HOST, value("a"));
    base.append(HOST, value("b"));
    let mut working = HeaderMap::new();
    working.insert(AUTHORIZATION, value("ours"));
    working.insert(HOST, value("c"));
    working.insert(CONTENT_LENGTH, value("5"));
    fill_missing(&mut base, working);
    assert_eq!(base.get(AUTHORIZATION), Some(&value("transport")));
    let hosts: Vec<&HeaderValue> = base.get_all(HOST).iter().collect();
    assert_eq!(hosts, vec![&value("a"), &value("b")]);
    assert_eq!(base.get(CONTENT_LENGTH), Some(&value("5")));
    assert_eq!(base.len(), 4);
    assert_eq!(base.keys_len(), 3);
}

#[test]
fn fill_missing_takes_the_first_value_only() {
    let mut base = HeaderMap::new();
    let mut working = HeaderMap::new();
    working.append(ACCEPT, value("one"));
    working.append(ACCEPT, value("two"));
    working.append(ACCEPT, value("three"));
    working.append(HeaderName::from_static("x-other"), value("four"));
    fill_missing(&mut base, working);
    let accepted: Vec<&HeaderValue> = base.get_all(ACCEPT).iter().collect();
    assert_eq!(accepted, vec![&value("one")]);
    assert_eq!(base.get("x-other"), Some(&value("four")));
    assert_eq!(base.len(), 2);
}

#[test]
fn fill_missing_with_nothing_changes_nothing() {
    let mut base = HeaderMap::new();
    base.insert(HOST, value("a"));
    let before = base.clone();
    fill_missing(&mut base, HeaderMap::new());
    assert_eq!(base, before);
}

#[test]
fn room_is_counted_in_names() {
    let mut map = HeaderMap::new();
    assert!(has_room_for(&map, 0));
    assert!(has_room_for(&map, MAX_NAMES));
    assert!(!has_room_for(&map, MAX_NAMES + 1));
    assert!(!has_room_for(&map, usize::MAX));
    map.append(ACCEPT, value("one"));
    map.append(ACCEPT, value("two"));
    map.insert(HOST, value("a"));
    assert!(has_room_for(&map, MAX_NAMES - 2));
    assert!(!has_room_for(&map, MAX_NAMES - 1));
}

#[test]
fn full_map_has_no_room() {
    let mut map = HeaderMap::new();
    for i in 0..MAX_NAMES {
        let name = HeaderName::from_bytes(format!("x-{}", i).as_bytes()).unwrap();
        map.insert(name, value("v"));
    }
    assert!(has_room_for(&map, 0));
    assert!(!has_room_for(&map, 1));
}
