use cgi_adapter::{
    build_header, decode, decode_body, decode_head, encode, format_usize, parse_usize,
    process_request, respond, respond_cgi_json, respond_cgi_plain_text, respond_json_text, serve, CgiEnv,
    CgiRequest, CgiResponse, DecodeError, HttpHeaderEntry,
};

fn env(length: Option<&str>, method: Option<&str>, path: Option<&str>) -> CgiEnv {
    CgiEnv {
        content_length: length.map(|s| s.to_owned()),
        request_method: method.map(|s| s.to_owned()),
        path_info: path.map(|s| s.to_owned()),
    }
}

fn header(name: &str, value: &str) -> HttpHeaderEntry {
    HttpHeaderEntry { attribute: name.to_owned(), value: value.to_owned() }
}

#[test]
fn decode_exact_body_with_default_path() {
    let body = b"hello world!!";
    let req = decode(&env(Some("13"), Some("POST"), None), body).unwrap();
    assert_eq!(req.method, "POST");
    assert_eq!(req.path, "/");
    assert_eq!(req.content, body.to_vec());
}

#[test]
fn decode_keeps_path_info() {
    let req = decode(&env(Some("3"), Some("PUT"), Some("/foo/bar")), b"abc").unwrap();
    assert_eq!(req.method, "PUT");
    assert_eq!(req.path, "/foo/bar");
    assert_eq!(req.content, b"abc".to_vec());
}

#[test]
fn decode_reads_no_more_than_declared() {
    let req = decode(&env(Some("2"), Some("POST"), None), b"abcdef").unwrap();
    assert_eq!(req.content, b"ab".to_vec());
}

#[test]
fn decode_zero_length_with_empty_input() {
    let req = decode(&env(Some("0"), Some("GET"), None), b"").unwrap();
    assert!(req.content.is_empty());
}

#[test]
fn decode_non_numeric_length() {
    let r = decode(&env(Some("abc"), Some("POST"), None), b"");
    assert!(matches!(r, Err(DecodeError::InvalidContentLength)));
}

#[test]
fn decode_negative_length() {
    let r = decode(&env(Some("-1"), Some("POST"), None), b"");
    assert!(matches!(r, Err(DecodeError::InvalidContentLength)));
}

#[test]
fn decode_length_checked_before_method() {
    let r = decode(&env(Some("x"), None, None), b"");
    assert!(matches!(r, Err(DecodeError::InvalidContentLength)));
}

#[test]
fn decode_missing_method() {
    let r = decode(&env(None, None, None), b"");
    assert!(matches!(r, Err(DecodeError::MissingMethod)));
}

#[test]
fn decode_truncated_body() {
    let r = decode(&env(Some("10"), Some("POST"), None), b"12345");
    assert!(matches!(r, Err(DecodeError::TruncatedBody)));
}

#[test]
fn decode_in_two_steps() {
    let head = decode_head(&env(Some("4"), Some("POST"), Some("/x"))).unwrap();
    assert_eq!(head.content_length, 4);
    assert_eq!(head.method, "POST");
    assert_eq!(head.path, "/x");
    let short = decode_body(head, b"ab".to_vec());
    assert!(matches!(short, Err(DecodeError::TruncatedBody)));
    let head = decode_head(&env(Some("4"), Some("POST"), Some("/x"))).unwrap();
    let req = decode_body(head, b"abcd".to_vec()).unwrap();
    assert_eq!(req.content, b"abcd".to_vec());
}

#[test]
fn error_messages() {
    assert_eq!(DecodeError::InvalidContentLength.message(), "Invalid CONTENT_LENGTH");
    assert_eq!(DecodeError::MissingMethod.message(), "No REQUEST_METHOD");
    assert_eq!(DecodeError::TruncatedBody.message(), "Could not read stdin");
}

#[test]
fn parse_usize_accepts_decimal() {
    assert_eq!(parse_usize("0"), Some(0));
    assert_eq!(parse_usize("13"), Some(13));
    assert_eq!(parse_usize("+7"), Some(7));
    assert_eq!(parse_usize("007"), Some(7));
    assert_eq!(parse_usize(&usize::MAX.to_string()), Some(usize::MAX));
}

#[test]
fn parse_usize_rejects_other_text() {
    assert_eq!(parse_usize(""), None);
    assert_eq!(parse_usize("+"), None);
    assert_eq!(parse_usize("-0"), None);
    assert_eq!(parse_usize(" 5"), None);
    assert_eq!(parse_usize("5 "), None);
    assert_eq!(parse_usize("1x"), None);
    assert_eq!(parse_usize("٣"), None);
    let over = format!("{}0", usize::MAX);
    assert_eq!(parse_usize(&over), None);
}

#[test]
fn parse_usize_agrees_with_std() {
    for s in ["0", "42", "+1", "-1", "", "+", "99999999999999999999999", "12a", "18446744073709551615"] {
        assert_eq!(parse_usize(s), s.parse::<usize>().ok(), "{}", s);
    }
}

#[test]
fn format_usize_writes_decimal() {
    assert_eq!(format_usize(0), "0");
    assert_eq!(format_usize(7), "7");
    assert_eq!(format_usize(1234), "1234");
    assert_eq!(format_usize(usize::MAX), usize::MAX.to_string());
}

#[test]
fn encode_round_trip_exact() {
    let response = CgiResponse {
        headers: vec![
            header("Content-Type", "text/plain; charset=UTF-8"),
            header("Content-Length", "5"),
        ],
        content: b"hello".to_vec(),
    };
    assert_eq!(
        encode(&response),
        b"Content-Type: text/plain; charset=UTF-8\r\nContent-Length: 5\r\n\r\nhello".to_vec()
    );
}

#[test]
fn build_header_without_headers_is_blank_line() {
    let response = CgiResponse { headers: vec![], content: b"x".to_vec() };
    assert_eq!(build_header(&response), "\r\n");
    assert_eq!(encode(&response), b"\r\nx".to_vec());
}

#[test]
fn encode_keeps_body_bytes_and_header_order() {
    let response = CgiResponse {
        headers: vec![header("X-B", "2"), header("X-A", "ü")],
        content: vec![0, 255, 13, 10],
    };
    let mut expected = "X-B: 2\r\nX-A: ü\r\n\r\n".as_bytes().to_vec();
    expected.extend_from_slice(&[0, 255, 13, 10]);
    assert_eq!(encode(&response), expected);
}

#[test]
fn plain_text_response_headers() {
    let r = respond_cgi_plain_text("hello");
    assert_eq!(r.headers.len(), 2);
    assert_eq!(r.headers[0].attribute, "Content-Type");
    assert_eq!(r.headers[0].value, "text/plain; charset=UTF-8");
    assert_eq!(r.headers[1].attribute, "Content-Length");
    assert_eq!(r.headers[1].value, "5");
    assert_eq!(r.content, b"hello".to_vec());
}

#[test]
fn plain_text_length_counts_bytes() {
    let r = respond_cgi_plain_text("héllo");
    assert_eq!(r.headers[1].value, "6");
    assert_eq!(r.content, "héllo".as_bytes().to_vec());
}

#[test]
fn json_text_response_headers() {
    let r = respond_json_text("{}");
    assert_eq!(r.headers[0].value, "application/json; charset=UTF-8");
    assert_eq!(r.headers[1].value, "2");
    assert_eq!(r.content, b"{}".to_vec());
}

#[test]
fn handler_wraps_parsed_body() {
    let req = CgiRequest {
        method: "POST".to_owned(),
        path: "/".to_owned(),
        content: br#"{"a":1,"b":2}"#.to_vec(),
    };
    let r = process_request(req).unwrap();
    assert_eq!(r.content, br#"{"req_body":{"a":1,"b":2}}"#.to_vec());
    assert_eq!(r.headers[1].value, "26");
}

#[test]
fn handler_rejects_malformed_body() {
    let req = CgiRequest { method: "POST".to_owned(), path: "/".to_owned(), content: b"{oops".to_vec() };
    assert_eq!(process_request(req).err(), Some("Error parsing body".to_owned()));
}

#[test]
fn handler_reads_body_lossily() {
    let req = CgiRequest { method: "POST".to_owned(), path: "/".to_owned(), content: vec![b'"', 0xff, b'"'] };
    let r = process_request(req).unwrap();
    assert_eq!(r.content, "{\"req_body\":\"\u{fffd}\"}".as_bytes().to_vec());
}

#[test]
fn respond_turns_decode_error_into_text() {
    let r = respond(Err(DecodeError::MissingMethod));
    assert_eq!(r.headers[0].value, "text/plain; charset=UTF-8");
    assert_eq!(r.content, b"No REQUEST_METHOD".to_vec());
}

#[test]
fn serve_invalid_content_length() {
    let out = serve(&env(Some("abc"), Some("POST"), None), b"");
    assert_eq!(
        out,
        b"Content-Type: text/plain; charset=UTF-8\r\nContent-Length: 22\r\n\r\nInvalid CONTENT_LENGTH"
            .to_vec()
    );
}

#[test]
fn serve_missing_method() {
    let out = serve(&env(None, None, None), b"");
    assert_eq!(
        out,
        b"Content-Type: text/plain; charset=UTF-8\r\nContent-Length: 17\r\n\r\nNo REQUEST_METHOD".to_vec()
    );
}

#[test]
fn serve_truncated_body() {
    let out = serve(&env(Some("10"), Some("POST"), None), b"12345");
    assert_eq!(
        out,
        b"Content-Type: text/plain; charset=UTF-8\r\nContent-Length: 20\r\n\r\nCould not read stdin".to_vec()
    );
}

#[test]
fn serve_json_post() {
    let out = serve(&env(Some("13"), Some("POST"), None), br#"{"a":1,"b":2}"#);
    assert_eq!(
        out,
        b"Content-Type: application/json; charset=UTF-8\r\nContent-Length: 26\r\n\r\n{\"req_body\":{\"a\":1,\"b\":2}}"
            .to_vec()
    );
}

#[test]
fn serve_get_without_body() {
    let out = serve(&env(None, Some("GET"), None), b"");
    assert_eq!(
        out,
        b"Content-Type: application/json; charset=UTF-8\r\nContent-Length: 15\r\n\r\n{\"req_body\":\"\"}".to_vec()
    );
}

#[test]
fn serve_malformed_json() {
    let out = serve(&env(Some("5"), Some("POST"), None), b"{oops");
    assert_eq!(
        out,
        b"Content-Type: text/plain; charset=UTF-8\r\nContent-Length: 18\r\n\r\nError parsing body".to_vec()
    );
}

#[test]
fn serve_twice_gives_same_bytes() {
    let e = env(Some("13"), Some("POST"), Some("/p"));
    let input = br#"{"a":1,"b":2}"#;
    assert_eq!(serve(&e, input), serve(&e, input));
    let bad = env(Some("abc"), Some("POST"), None);
    assert_eq!(serve(&bad, b""), serve(&bad, b""));
}

#[test]
fn json_response_carries_dump() {
    let value = json::parse("[1, 2,  {\"k\": null}]").unwrap();
    let r = respond_cgi_json(&value);
    assert_eq!(r.headers[0].value, "application/json; charset=UTF-8");
    assert_eq!(r.headers[1].value, "16");
    assert_eq!(r.content, br#"[1,2,{"k":null}]"#.to_vec());
}
