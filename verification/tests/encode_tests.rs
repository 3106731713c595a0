use client_stages::message::{decimal_bytes, HeaderMap, Request};
use client_stages::to_json_request::to_json_request;

fn object_with_x(value: serde_json::Value) -> serde_json::Value {
    let mut map = serde_json::Map::new();
    map.insert("x".to_string(), value);
    serde_json::Value::Object(map)
}

#[test]
fn encoder_serializes_and_fills_in_both_headers() {
    let request = Request { headers: HeaderMap::new(), body: object_with_x(1.into()) };
    let encoded = to_json_request(request).expect("a document value must serialize");
    assert_eq!(encoded.body.as_slice(), b"{\"x\":1}");
    let length = encoded.headers.get_value(&b"content-length".to_vec()).expect("length set");
    assert_eq!(length.as_slice(), b"7");
    let kind = encoded.headers.get_value(&b"content-type".to_vec()).expect("content type set");
    assert_eq!(kind.as_slice(), b"application/json");
    assert_eq!(encoded.headers.entries.len(), 2);
}

#[test]
fn encoder_keeps_headers_that_are_already_present() {
    let headers = HeaderMap {
        entries: vec![(b"content-length".to_vec(), b"999".to_vec())],
    };
    let request = Request { headers, body: serde_json::Value::Null };
    let encoded = to_json_request(request).expect("a document value must serialize");
    assert_eq!(encoded.body.as_slice(), b"null");
    let length = encoded.headers.get_value(&b"content-length".to_vec()).expect("length kept");
    assert_eq!(length.as_slice(), b"999");
    let kind = encoded.headers.get_value(&b"content-type".to_vec()).expect("content type set");
    assert_eq!(kind.as_slice(), b"application/json");
}

#[test]
fn encoder_keeps_a_preexisting_content_type() {
    let headers = HeaderMap {
        entries: vec![(b"content-type".to_vec(), b"application/vnd.x+json".to_vec())],
    };
    let request = Request { headers, body: object_with_x("y".into()) };
    let encoded = to_json_request(request).expect("a document value must serialize");
    assert_eq!(encoded.body.as_slice(), b"{\"x\":\"y\"}");
    let kind = encoded.headers.get_value(&b"content-type".to_vec()).expect("content type kept");
    assert_eq!(kind.as_slice(), b"application/vnd.x+json");
    let length = encoded.headers.get_value(&b"content-length".to_vec()).expect("length set");
    assert_eq!(length.as_slice(), b"9");
}

#[test]
fn decimal_rendering_is_exact() {
    assert_eq!(decimal_bytes(0).as_slice(), b"0");
    assert_eq!(decimal_bytes(7).as_slice(), b"7");
    assert_eq!(decimal_bytes(10).as_slice(), b"10");
    assert_eq!(decimal_bytes(409).as_slice(), b"409");
    assert_eq!(decimal_bytes(u64::MAX).as_slice(), b"18446744073709551615");
}

#[test]
fn lookup_finds_the_first_matching_entry() {
    let headers = HeaderMap {
        entries: vec![
            (b"a".to_vec(), b"first".to_vec()),
            (b"b".to_vec(), b"other".to_vec()),
            (b"a".to_vec(), b"second".to_vec()),
        ],
    };
    let value = headers.get_value(&b"a".to_vec()).expect("present");
    assert_eq!(value.as_slice(), b"first");
    assert!(headers.get_value(&b"missing".to_vec()).is_none());
    assert!(headers.contains_name(&b"b".to_vec()));
    assert!(!headers.contains_name(&b"c".to_vec()));
}
