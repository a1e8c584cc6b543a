use goohttp::codec::serialize_response;
use goohttp::codec::StructuredResponse;
use goohttp::connection::build_request;
use goohttp::connection::ConnectionError;
use goohttp::connection::StructuredRequest;

// Stands in for the external dispatcher: maps a request to the response its
// target is associated with, as the dispatcher contract demands.
fn dispatch(req: &StructuredRequest) -> StructuredResponse {
    let mut resp = StructuredResponse::new();
    resp.body = if req.target == b"/" {
        b"index".to_vec()
    } else if req.target == b"/a" {
        b"alpha".to_vec()
    } else if req.target == b"/b" {
        b"beta".to_vec()
    } else {
        b"none".to_vec()
    };
    resp
}

#[test]
fn get_root_is_answered_with_index() {
    let lines = vec![b"GET / HTTP/1.1".to_vec()];
    let req = build_request(&lines).unwrap();
    assert_eq!(req.method, b"GET".to_vec());
    assert_eq!(req.target, b"/".to_vec());
    assert!(req.body.is_empty());
    let resp = dispatch(&req);
    let bytes = serialize_response(&resp).unwrap();
    assert_eq!(bytes, b"HTTP/1.1 200 OK\r\n\r\nindex".to_vec());
}

#[test]
fn empty_connection_gets_no_response() {
    let lines: Vec<Vec<u8>> = Vec::new();
    let r = build_request(&lines);
    assert!(matches!(r, Err(ConnectionError::EmptyRequest)));
}

#[test]
fn malformed_request_line_drops_the_connection() {
    let lines = vec![b"BADLINE".to_vec()];
    let r = build_request(&lines);
    assert!(matches!(r, Err(ConnectionError::MalformedRequest)));

    let lines = vec![b"@@@ / HTTP/1.1".to_vec()];
    let r = build_request(&lines);
    assert!(matches!(r, Err(ConnectionError::MalformedRequest)));
}

#[test]
fn header_lines_are_read_but_not_parsed() {
    let lines = vec![
        b"GET / HTTP/1.1".to_vec(),
        b"Host: somewhere".to_vec(),
        b"Accept: */*".to_vec(),
    ];
    let req = build_request(&lines).unwrap();
    assert_eq!(req.target, b"/".to_vec());
    assert!(req.body.is_empty());
}

#[test]
fn distinct_targets_get_their_own_responses() {
    let lines_a = vec![b"GET /a HTTP/1.1".to_vec()];
    let lines_b = vec![b"GET /b HTTP/1.1".to_vec()];
    let req_a = build_request(&lines_a).unwrap();
    let req_b = build_request(&lines_b).unwrap();
    assert_eq!(req_a.target, b"/a".to_vec());
    assert_eq!(req_b.target, b"/b".to_vec());
    let bytes_a = serialize_response(&dispatch(&req_a)).unwrap();
    let bytes_b = serialize_response(&dispatch(&req_b)).unwrap();
    assert_eq!(bytes_a, b"HTTP/1.1 200 OK\r\n\r\nalpha".to_vec());
    assert_eq!(bytes_b, b"HTTP/1.1 200 OK\r\n\r\nbeta".to_vec());
    assert_ne!(bytes_a, bytes_b);
}
