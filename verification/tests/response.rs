use docker_run::response::{find_blank_line, parse_head, ResponseHead};

#[test]
fn head_of_a_plain_answer() {
    let bytes = b"HTTP/1.1 200 OK\r\nContent-Type: application/json\r\n\r\n{\"a\":1}";
    assert_eq!(parse_head(bytes), Some(ResponseHead { status: 200, body_start: 51 }));
    assert_eq!(&bytes[51..], b"{\"a\":1}");
}

#[test]
fn head_without_headers_or_reason() {
    assert_eq!(
        parse_head(b"HTTP/1.0 204\r\n\r\n"),
        Some(ResponseHead { status: 204, body_start: 16 })
    );
    assert_eq!(
        parse_head(b"HTTP/1.1 404 Not Found\r\n\r\n"),
        Some(ResponseHead { status: 404, body_start: 26 })
    );
    assert_eq!(
        parse_head(b"HTTP/1.1 999 \r\n\r\n\r\n\r\n"),
        Some(ResponseHead { status: 999, body_start: 17 })
    );
    assert_eq!(
        parse_head(b"HTTP/1.1 000 x\r\n\r\n"),
        Some(ResponseHead { status: 0, body_start: 18 })
    );
}

#[test]
fn what_is_no_head() {
    assert_eq!(parse_head(b""), None);
    assert_eq!(parse_head(b"HTTP/1.1 200 OK\r\nHeader: x\r\n"), None);
    assert_eq!(parse_head(b"HTTP/1.1 20 OK\r\n\r\n"), None);
    assert_eq!(parse_head(b"HTTP/1.1 2000 OK\r\n\r\n"), None);
    assert_eq!(parse_head(b"HTTP/11 200 OK\r\n\r\n"), None);
    assert_eq!(parse_head(b"http/1.1 200 OK\r\n\r\n"), None);
    assert_eq!(parse_head(b"HTTP/1.1  200 OK\r\n\r\n"), None);
    assert_eq!(parse_head(b"HTTP/1.1 2x0 OK\r\n\r\n"), None);
    assert_eq!(parse_head(b"\r\n\r\nHTTP/1.1 200 OK\r\n\r\n"), None);
    assert_eq!(parse_head(b"HTTP/1.1 200 OK\n\n"), None);
}

#[test]
fn the_first_empty_line_is_found() {
    assert_eq!(find_blank_line(b"\r\n\r\n"), Some(0));
    assert_eq!(find_blank_line(b"a\r\n\r\nb\r\n\r\n"), Some(1));
    assert_eq!(find_blank_line(b"\r\n\r"), None);
    assert_eq!(find_blank_line(b"\r\n \r\n"), None);
    assert_eq!(find_blank_line(b"abc\r\n\r\n"), Some(3));
    assert_eq!(find_blank_line(b"\r\r\n\r\n"), Some(1));
    assert_eq!(find_blank_line(b""), None);
}
