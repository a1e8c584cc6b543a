use goohttp::codec::parse_request_line;
use goohttp::codec::serialize_response;
use goohttp::codec::write_response_bytes;
use goohttp::codec::HttpVersion;
use goohttp::codec::ParseError;
use goohttp::codec::StructuredResponse;

#[test]
fn parse_extracts_literal_tokens() {
    let r = parse_request_line(&b"GET /foo HTTP/1.1".to_vec()).unwrap();
    assert_eq!(r.method, b"GET".to_vec());
    assert_eq!(r.target, b"/foo".to_vec());
}

#[test]
fn parse_accepts_other_methods_and_targets() {
    let r = parse_request_line(&b"POST /api/say_hello?who=me HTTP/1.1".to_vec()).unwrap();
    assert_eq!(r.method, b"POST".to_vec());
    assert_eq!(r.target, b"/api/say_hello?who=me".to_vec());

    let r = parse_request_line(&b"PATCH-X / HTTP/1.1".to_vec()).unwrap();
    assert_eq!(r.method, b"PATCH-X".to_vec());
    assert_eq!(r.target, b"/".to_vec());
}

#[test]
fn parse_ignores_everything_after_the_second_token() {
    let r = parse_request_line(&b"GET / NOT-A-VERSION with trailing junk".to_vec()).unwrap();
    assert_eq!(r.method, b"GET".to_vec());
    assert_eq!(r.target, b"/".to_vec());

    let r = parse_request_line(&b"GET /foo".to_vec()).unwrap();
    assert_eq!(r.target, b"/foo".to_vec());
}

#[test]
fn parse_empty_line_is_missing_token() {
    let r = parse_request_line(&Vec::new());
    assert!(matches!(r, Err(ParseError::MissingToken)));
}

#[test]
fn parse_single_token_is_missing_token() {
    let r = parse_request_line(&b"GET".to_vec());
    assert!(matches!(r, Err(ParseError::MissingToken)));
}

#[test]
fn parse_bad_method_is_invalid_method() {
    let r = parse_request_line(&b"@@@ /foo HTTP/1.1".to_vec());
    assert!(matches!(r, Err(ParseError::InvalidMethod)));
}

#[test]
fn parse_empty_method_is_invalid_method() {
    let r = parse_request_line(&b" /foo HTTP/1.1".to_vec());
    assert!(matches!(r, Err(ParseError::InvalidMethod)));
}

#[test]
fn parse_bad_target_is_invalid_target() {
    let r = parse_request_line(&b"GET < HTTP/1.1".to_vec());
    assert!(matches!(r, Err(ParseError::InvalidTarget)));
}

#[test]
fn parse_empty_target_is_invalid_target() {
    let r = parse_request_line(&b"GET ".to_vec());
    assert!(matches!(r, Err(ParseError::InvalidTarget)));
}

#[test]
fn version_wire_bytes() {
    assert_eq!(HttpVersion::Http09.wire_bytes(), b"HTTP/0.9".to_vec());
    assert_eq!(HttpVersion::Http10.wire_bytes(), b"HTTP/1.0".to_vec());
    assert_eq!(HttpVersion::Http11.wire_bytes(), b"HTTP/1.1".to_vec());
    assert_eq!(HttpVersion::Http2.wire_bytes(), b"HTTP/2.0".to_vec());
    assert_eq!(HttpVersion::Http3.wire_bytes(), b"HTTP/3.0".to_vec());
}

#[test]
fn serialize_round_trip_layout() {
    let resp = StructuredResponse {
        version: HttpVersion::Http11,
        status: 200,
        headers: vec![(b"Content-Type".to_vec(), b"text/plain".to_vec())],
        body: b"hi".to_vec(),
    };
    let bytes = serialize_response(&resp).unwrap();
    let text = String::from_utf8(bytes).unwrap();
    assert!(text.ends_with("\r\n\r\nhi"));
    let status_line = text.split("\r\n").next().unwrap();
    assert!(status_line.contains("200"));
    assert!(status_line.contains("OK"));
    assert_eq!(text.matches("Content-Type: text/plain\r\n").count(), 1);
    assert_eq!(text, "HTTP/1.1 200 OK\r\nContent-Type: text/plain\r\n\r\nhi");
}

#[test]
fn serialize_blank_line_comes_even_without_headers() {
    let resp = StructuredResponse {
        version: HttpVersion::Http11,
        status: 404,
        headers: Vec::new(),
        body: Vec::new(),
    };
    let bytes = serialize_response(&resp).unwrap();
    assert_eq!(bytes, b"HTTP/1.1 404 Not Found\r\n\r\n".to_vec());
}

#[test]
fn serialize_keeps_header_order() {
    let resp = StructuredResponse {
        version: HttpVersion::Http10,
        status: 204,
        headers: vec![
            (b"B".to_vec(), b"2".to_vec()),
            (b"A".to_vec(), b"1".to_vec()),
        ],
        body: Vec::new(),
    };
    let bytes = serialize_response(&resp).unwrap();
    assert_eq!(bytes, b"HTTP/1.0 204 No Content\r\nB: 2\r\nA: 1\r\n\r\n".to_vec());
}

#[test]
fn serialize_without_reason_phrase_is_refused() {
    let mut resp = StructuredResponse::new();
    resp.status = 599;
    assert!(serialize_response(&resp).is_none());
    resp.status = 1000;
    assert!(serialize_response(&resp).is_none());
}

#[test]
fn write_response_bytes_takes_the_reason_given() {
    let resp = StructuredResponse {
        version: HttpVersion::Http11,
        status: 200,
        headers: Vec::new(),
        body: b"x".to_vec(),
    };
    let bytes = write_response_bytes(&resp, &b"Fine".to_vec());
    assert_eq!(bytes, b"HTTP/1.1 200 Fine\r\n\r\nx".to_vec());
}

#[test]
fn default_response_is_200_http11_and_empty() {
    let resp = StructuredResponse::new();
    assert_eq!(resp.status, 200);
    assert_eq!(resp.version, HttpVersion::Http11);
    assert!(resp.headers.is_empty());
    assert!(resp.body.is_empty());
}
