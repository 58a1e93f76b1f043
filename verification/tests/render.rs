use minihttp::response::octet_response;
use minihttp::response::render;
use minihttp::response::text_response;

#[test]
fn content_length_counts_body_bytes_exactly() {
    let wire = render(&text_response(b"0123456789".to_vec()));
    assert_eq!(
        wire,
        b"HTTP/1.1 200 OK\r\nContent-Type: text/plain\r\nContent-Length: 10\r\n\r\n0123456789"
            .to_vec()
    );
}

#[test]
fn content_length_of_longer_bodies_is_decimal() {
    let body = vec![b'a'; 1234];
    let wire = render(&octet_response(body.clone()));
    let mut expected =
        b"HTTP/1.1 200 OK\r\nContent-Type: application/octet-stream\r\nContent-Length: 1234\r\n\r\n"
            .to_vec();
    expected.extend_from_slice(&body);
    assert_eq!(wire, expected);
}

#[test]
fn body_bytes_are_not_escaped() {
    let wire = render(&text_response(b"a\r\nb".to_vec()));
    assert_eq!(
        wire,
        b"HTTP/1.1 200 OK\r\nContent-Type: text/plain\r\nContent-Length: 4\r\n\r\na\r\nb".to_vec()
    );
}
