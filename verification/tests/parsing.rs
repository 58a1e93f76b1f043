use minihttp::request::Method;
use minihttp::request::ParseError;
use minihttp::request::Request;

#[test]
fn parse_get_simple() {
    let r = Request::parse(b"GET / HTTP/1.1\r\nHost: x\r\n\r\n").unwrap();
    assert_eq!(r.start_line.method, Method::GET);
    assert_eq!(r.start_line.path, b"/".to_vec());
    assert_eq!(r.start_line.version, b"HTTP/1.1".to_vec());
    assert_eq!(r.headers, vec![(b"Host".to_vec(), b"x".to_vec())]);
    assert_eq!(r.body, None);
}

#[test]
fn parse_post_with_body() {
    let r = Request::parse(b"POST /files/a.txt HTTP/1.1\r\nContent-Length: 4\r\n\r\ndata").unwrap();
    assert_eq!(r.start_line.method, Method::POST);
    assert_eq!(r.start_line.path, b"/files/a.txt".to_vec());
    assert_eq!(
        r.headers,
        vec![(b"Content-Length".to_vec(), b"4".to_vec())]
    );
    assert_eq!(r.body, Some(b"data".to_vec()));
}

#[test]
fn parse_post_without_blank_line_has_no_body() {
    let r = Request::parse(b"POST /files/e.txt HTTP/1.1\r\nA: b").unwrap();
    assert_eq!(r.start_line.method, Method::POST);
    assert_eq!(r.headers, vec![(b"A".to_vec(), b"b".to_vec())]);
    assert_eq!(r.body, None);
}

#[test]
fn parse_get_ignores_bytes_after_blank_line() {
    let r = Request::parse(b"GET / HTTP/1.1\r\nH: v\r\n\r\nstray bytes").unwrap();
    assert_eq!(r.start_line.method, Method::GET);
    assert_eq!(r.headers, vec![(b"H".to_vec(), b"v".to_vec())]);
    assert_eq!(r.body, None);
}

#[test]
fn parse_empty_input_is_malformed_start_line() {
    assert_eq!(Request::parse(b""), Err(ParseError::MalformedStartLine));
}

#[test]
fn parse_two_token_start_line_fails() {
    assert_eq!(
        Request::parse(b"GET /\r\n\r\n"),
        Err(ParseError::MalformedStartLine)
    );
}

#[test]
fn parse_four_token_start_line_fails() {
    assert_eq!(
        Request::parse(b"GET /a b HTTP/1.1\r\n\r\n"),
        Err(ParseError::MalformedStartLine)
    );
}

#[test]
fn parse_unknown_method_fails() {
    assert_eq!(
        Request::parse(b"BREW / HTTP/1.1\r\n\r\n"),
        Err(ParseError::MalformedStartLine)
    );
}

#[test]
fn parse_path_without_leading_slash_fails() {
    assert_eq!(
        Request::parse(b"GET nope HTTP/1.1\r\n\r\n"),
        Err(ParseError::MalformedStartLine)
    );
}

#[test]
fn parse_header_without_separator_fails() {
    assert_eq!(
        Request::parse(b"GET / HTTP/1.1\r\nNoSeparator\r\n\r\n"),
        Err(ParseError::MalformedHeader)
    );
}

#[test]
fn parse_invalid_utf8_is_encoding_error() {
    assert_eq!(
        Request::parse(b"GET /\xff HTTP/1.1\r\n\r\n"),
        Err(ParseError::EncodingError)
    );
}

#[test]
fn parse_overlong_utf8_is_encoding_error() {
    // 0xC0 0xAF is an overlong encoding of '/'
    assert_eq!(
        Request::parse(b"GET /\xc0\xaf HTTP/1.1\r\n\r\n"),
        Err(ParseError::EncodingError)
    );
}

#[test]
fn parse_multibyte_utf8_path_is_accepted() {
    let r = Request::parse("GET /caf\u{e9} HTTP/1.1\r\n\r\n".as_bytes()).unwrap();
    assert_eq!(r.start_line.path, "/caf\u{e9}".as_bytes().to_vec());
}

#[test]
fn parse_header_value_keeps_later_separator() {
    let r = Request::parse(b"GET / HTTP/1.1\r\nA: b: c\r\n\r\n").unwrap();
    assert_eq!(r.headers, vec![(b"A".to_vec(), b"b: c".to_vec())]);
}

#[test]
fn parse_start_line_without_any_terminator() {
    let r = Request::parse(b"GET / HTTP/1.1").unwrap();
    assert_eq!(r.start_line.method, Method::GET);
    assert_eq!(r.headers, vec![]);
    assert_eq!(r.body, None);
}

#[test]
fn parse_method_token_is_case_sensitive() {
    assert_eq!(
        Request::parse(b"get / HTTP/1.1\r\n\r\n"),
        Err(ParseError::MalformedStartLine)
    );
}
