use rustyserver::http::build_response;
use rustyserver::http::classify_request;
use rustyserver::http::decimal_of;
use rustyserver::http::page_for;
use rustyserver::http::root_request_prefix_bytes;
use rustyserver::http::sleep_request_prefix_bytes;
use rustyserver::http::starts_with;
use rustyserver::http::status_line;
use rustyserver::http::Page;
use rustyserver::http::RequestKind;

fn padded(request: &[u8]) -> Vec<u8> {
    // A raw read buffer: the request followed by zero bytes.
    let mut buf = request.to_vec();
    buf.resize(1024, 0);
    buf
}

#[test]
fn the_prefixes_spell_the_request_lines() {
    assert_eq!(root_request_prefix_bytes(), b"GET / HTTP/1.1\r\n".to_vec());
    assert_eq!(
        sleep_request_prefix_bytes(),
        b"GET /sleep HTTP/1.1\r\n".to_vec()
    );
}

#[test]
fn a_root_fetch_is_classified_by_its_prefix() {
    let buf = padded(b"GET / HTTP/1.1\r\nHost: localhost\r\n\r\n");
    assert_eq!(classify_request(&buf), RequestKind::Root);
}

#[test]
fn a_sleep_fetch_is_classified_by_its_prefix() {
    let buf = padded(b"GET /sleep HTTP/1.1\r\nHost: localhost\r\n\r\n");
    assert_eq!(classify_request(&buf), RequestKind::Sleep);
}

#[test]
fn anything_else_is_unknown() {
    let buf = padded(b"GET /missing HTTP/1.1\r\n\r\n");
    assert_eq!(classify_request(&buf), RequestKind::Unknown);
    let post = padded(b"POST / HTTP/1.1\r\n\r\n");
    assert_eq!(classify_request(&post), RequestKind::Unknown);
    let short = b"GET /";
    assert_eq!(classify_request(short), RequestKind::Unknown);
}

#[test]
fn prefix_test_is_exact() {
    assert!(starts_with(b"abcdef", b"abc"));
    assert!(starts_with(b"abc", b"abc"));
    assert!(!starts_with(b"ab", b"abc"));
    assert!(!starts_with(b"abXdef", b"abc"));
    assert!(starts_with(b"whatever", b""));
}

#[test]
fn unknown_requests_get_the_not_found_page_and_status() {
    assert_eq!(page_for(RequestKind::Root), Page::Index);
    assert_eq!(page_for(RequestKind::Sleep), Page::Index);
    assert_eq!(page_for(RequestKind::Unknown), Page::NotFound);
    assert_eq!(status_line(RequestKind::Root), b"HTTP/1.1 200 OK".to_vec());
    assert_eq!(status_line(RequestKind::Sleep), b"HTTP/1.1 200 OK".to_vec());
    assert_eq!(
        status_line(RequestKind::Unknown),
        b"HTTP/1.1 404 NOT FOUND".to_vec()
    );
}

#[test]
fn decimal_rendering_is_exact() {
    assert_eq!(decimal_of(0), b"0".to_vec());
    assert_eq!(decimal_of(5), b"5".to_vec());
    assert_eq!(decimal_of(10), b"10".to_vec());
    assert_eq!(decimal_of(1024), b"1024".to_vec());
    assert_eq!(decimal_of(987654), b"987654".to_vec());
}

#[test]
fn the_response_carries_status_length_blank_line_and_body() {
    let status = b"HTTP/1.1 200 OK";
    let body = b"hello";
    let response = build_response(status, body);
    assert_eq!(
        response,
        b"HTTP/1.1 200 OK\r\nContent-Length: 5\r\n\r\nhello".to_vec()
    );
}

#[test]
fn an_empty_body_has_length_zero() {
    let response = build_response(b"HTTP/1.1 404 NOT FOUND", b"");
    assert_eq!(
        response,
        b"HTTP/1.1 404 NOT FOUND\r\nContent-Length: 0\r\n\r\n".to_vec()
    );
}
