use http_wire::header::{join_lines, write_header_line, write_header_lines, Header};
use http_wire::message::{
    write_message, write_request_line, write_status_line, Request, Response,
};
use http_wire::parser::HttpParser;
use http_wire::status::{render_status, StatusCode};
use http_wire::version::HttpVersion;

fn header(name: &str, value: &[u8]) -> Header {
    Header { name: name.to_string(), value: value.to_vec() }
}

fn get(version: HttpVersion, headers: Vec<Header>, body: &str) -> Request {
    Request {
        method: "GET".to_string(),
        target: "http://localhost/".to_string(),
        version,
        headers,
        body: body.to_string(),
    }
}

fn reply(code: u16, version: HttpVersion, headers: Vec<Header>, body: &str) -> Response {
    Response { version, status: StatusCode::new(code).unwrap(), headers, body: body.to_string() }
}

#[test]
fn it_works() {
    let request = Request {
        method: "GET".to_string(),
        target: "http://localhost/".to_string(),
        version: HttpVersion::Http11,
        headers: Vec::new(),
        body: "".to_string(),
    };
    let response = Response {
        version: HttpVersion::Http11,
        status: StatusCode::new(200).unwrap(),
        headers: Vec::new(),
        body: "<h1>hello</h1>".to_string(),
    };
    let request = HttpParser::from_request(&request).parse().unwrap();
    let response = HttpParser::from_response(&response).parse().unwrap();
    assert_eq!(request, "GET http://localhost/ HTTP/1.1\r\n\r\n");
    assert_eq!(response, "HTTP/1.1 200 OK\r\n\r\n<h1>hello</h1>");
}

#[test]
fn every_version_has_its_token() {
    let table = [
        (HttpVersion::Http09, "HTTP/0.9"),
        (HttpVersion::Http10, "HTTP/1.0"),
        (HttpVersion::Http11, "HTTP/1.1"),
        (HttpVersion::Http2, "HTTP/2"),
        (HttpVersion::Http3, "HTTP/3"),
    ];
    for (version, token) in table {
        assert_eq!(version.as_str(), token);
        let request = get(version, Vec::new(), "");
        let parser = HttpParser::from_request(&request);
        assert_eq!(parser.parse_version(), Some(token.to_string()));
        assert_eq!(parser.parse(), Some(format!("GET http://localhost/ {token}\r\n\r\n")));
        let response = reply(204, version, Vec::new(), "");
        let parser = HttpParser::from_response(&response);
        assert_eq!(parser.parse_version(), Some(token.to_string()));
        assert_eq!(parser.parse(), Some(format!("{token} 204 No Content\r\n\r\n")));
    }
}

#[test]
fn header_lines_keep_order_and_duplicates() {
    let headers = vec![
        header("Accept", b"text/html"),
        header("X-Trace", b"1"),
        header("Accept", b"text/plain"),
        header("X-Trace", b"1"),
    ];
    let lines = write_header_lines(&headers);
    assert_eq!(lines, vec!["Accept:text/html", "X-Trace:1", "Accept:text/plain", "X-Trace:1"]);
    let request = get(HttpVersion::Http11, headers, "");
    let parser = HttpParser::from_request(&request);
    assert_eq!(
        parser.parse_header(),
        "Accept:text/html\r\nX-Trace:1\r\nAccept:text/plain\r\nX-Trace:1"
    );
    assert_eq!(
        parser.parse().unwrap(),
        "GET http://localhost/ HTTP/1.1\r\nAccept:text/html\r\nX-Trace:1\r\nAccept:text/plain\r\nX-Trace:1\r\n"
    );
}

#[test]
fn header_name_is_written_as_given() {
    let headers = vec![header("Content-TYPE", b"a"), header("content-type", b"b")];
    let response = reply(200, HttpVersion::Http10, headers, "x");
    assert_eq!(
        HttpParser::from_response(&response).parse().unwrap(),
        "HTTP/1.0 200 OK\r\nContent-TYPE:a\r\ncontent-type:b\r\nx"
    );
}

#[test]
fn no_headers_give_an_empty_block() {
    let request = get(HttpVersion::Http11, Vec::new(), "BODY");
    let parser = HttpParser::from_request(&request);
    assert_eq!(parser.parse_header(), "");
    assert_eq!(parser.parse().unwrap(), "GET http://localhost/ HTTP/1.1\r\n\r\nBODY");
}

#[test]
fn one_line_end_stands_between_headers_and_body() {
    let request = get(HttpVersion::Http11, vec![header("Host", b"localhost")], "");
    let parser = HttpParser::from_request(&request);
    assert_eq!(parser.parse_header(), "Host:localhost");
    assert_eq!(
        parser.parse().unwrap(),
        "GET http://localhost/ HTTP/1.1\r\nHost:localhost\r\n"
    );
}

#[test]
fn body_is_written_as_it_stands() {
    let body = "line one\r\n\r\nline two\n\u{e9}\u{4e16}";
    let response = reply(200, HttpVersion::Http11, vec![header("A", b"b")], body);
    assert_eq!(
        HttpParser::from_response(&response).parse().unwrap(),
        format!("HTTP/1.1 200 OK\r\nA:b\r\n{body}")
    );
}

#[test]
fn valid_utf8_value_is_decoded() {
    let value = "caf\u{e9} \u{4e16}\u{754c} \u{1f600}";
    let line = header("X-Note", value.as_bytes()).line();
    assert_eq!(line, format!("X-Note:{value}"));
}

#[test]
fn invalid_value_is_marked_where_it_breaks() {
    let line = header("X-Bin", &[b'o', b'k', 0xff, b'!']).line();
    assert_eq!(line, "X-Bin:ok\u{fffd}!");
    let marker = line.chars().position(|c| c == '\u{fffd}');
    assert_eq!(marker, Some("X-Bin".len() + 1 + "ok".len()));
}

#[test]
fn invalid_value_at_the_start_and_at_the_end() {
    assert_eq!(header("A", &[0x80, b'x']).line(), "A:\u{fffd}x");
    assert_eq!(header("A", &[b'x', 0xc3]).line(), "A:x\u{fffd}");
    assert_eq!(header("A", &[0xe4, 0xb8]).line(), "A:\u{fffd}");
    assert_eq!(header("A", &[0xed, 0xa0, 0x80]).line(), "A:\u{fffd}\u{fffd}\u{fffd}");
    assert_eq!(header("A", &[0xc0, 0xaf]).line(), "A:\u{fffd}\u{fffd}");
    assert_eq!(header("A", &[0xf4, 0x90, 0x80, 0x80]).line(), "A:\u{fffd}\u{fffd}\u{fffd}\u{fffd}");
}

#[test]
fn valid_text_before_the_first_invalid_sequence_is_kept() {
    let mut value = "\u{e9}\u{4e16}".as_bytes().to_vec();
    value.push(0xfe);
    value.extend_from_slice("z".as_bytes());
    let line = header("N", &value).line();
    assert_eq!(line, "N:\u{e9}\u{4e16}\u{fffd}z");
    let chars: Vec<char> = line.chars().collect();
    assert_eq!(chars[2 + 2], '\u{fffd}');
}

#[test]
fn invalid_value_never_fails_a_message() {
    let headers = vec![
        header("Good", b"yes"),
        header("Bad", &[0xff, 0xfe]),
        header("Empty", b""),
    ];
    let request = get(HttpVersion::Http11, headers.clone(), "b");
    assert_eq!(
        HttpParser::from_request(&request).parse(),
        Some(
            "GET http://localhost/ HTTP/1.1\r\nGood:yes\r\nBad:\u{fffd}\u{fffd}\r\nEmpty:\r\nb"
                .to_string()
        )
    );
    let response = reply(500, HttpVersion::Http11, headers, "b");
    assert_eq!(
        HttpParser::from_response(&response).parse(),
        Some(
            "HTTP/1.1 500 Internal Server Error\r\nGood:yes\r\nBad:\u{fffd}\u{fffd}\r\nEmpty:\r\nb"
                .to_string()
        )
    );
}

#[test]
fn parsing_twice_gives_the_same_text() {
    let request = get(
        HttpVersion::Http10,
        vec![header("A", b"1"), header("B", &[0x80]), header("A", b"2")],
        "payload",
    );
    let parser = HttpParser::from_request(&request);
    let first = parser.parse();
    let second = parser.parse();
    assert!(first.is_some());
    assert_eq!(first, second);
    let copy = parser;
    assert_eq!(copy.parse(), first);
    let response = reply(404, HttpVersion::Http11, vec![header("B", &[0xc3, 0x28])], "");
    let parser = HttpParser::from_response(&response);
    assert_eq!(parser.parse(), parser.parse());
}

#[test]
fn a_request_is_no_response_and_a_response_no_request() {
    let request = get(HttpVersion::Http11, Vec::new(), "");
    let parser = HttpParser::from_request(&request);
    assert_eq!(parser.parse_response(), None);
    assert_eq!(parser.parse_request(), parser.parse());
    let response = reply(200, HttpVersion::Http11, Vec::new(), "");
    let parser = HttpParser::from_response(&response);
    assert_eq!(parser.parse_request(), None);
    assert_eq!(parser.parse_response(), parser.parse());
}

#[test]
fn from_request_and_from_response_keep_the_message() {
    let request = get(HttpVersion::Http2, vec![header("k", b"v")], "q");
    match HttpParser::from_request(&request) {
        HttpParser::Request(inner) => assert_eq!(inner, &request),
        HttpParser::Response(_) => panic!("a request became a response"),
    }
    let response = reply(301, HttpVersion::Http3, vec![header("k", b"v")], "q");
    match HttpParser::from_response(&response) {
        HttpParser::Response(inner) => assert_eq!(inner, &response),
        HttpParser::Request(_) => panic!("a response became a request"),
    }
}

#[test]
fn status_code_bounds() {
    assert!(StatusCode::new(0).is_none());
    assert!(StatusCode::new(99).is_none());
    assert_eq!(StatusCode::new(100).unwrap().as_u16(), 100);
    assert_eq!(StatusCode::new(418).unwrap().as_u16(), 418);
    assert_eq!(StatusCode::new(599).unwrap().as_u16(), 599);
    assert!(StatusCode::new(600).is_none());
    assert!(StatusCode::new(999).is_none());
    assert!(StatusCode::new(u16::MAX).is_none());
}

#[test]
fn status_text_has_the_registered_reason() {
    assert_eq!(StatusCode::new(100).unwrap().to_text(), "100 Continue");
    assert_eq!(StatusCode::new(200).unwrap().to_text(), "200 OK");
    assert_eq!(StatusCode::new(404).unwrap().to_text(), "404 Not Found");
    assert_eq!(StatusCode::new(418).unwrap().to_text(), "418 I'm a teapot");
    assert_eq!(StatusCode::new(511).unwrap().to_text(), "511 Network Authentication Required");
    assert_eq!(StatusCode::new(404).unwrap().canonical_reason(), Some("Not Found"));
}

#[test]
fn status_text_without_a_registered_reason() {
    assert_eq!(StatusCode::new(299).unwrap().canonical_reason(), None);
    assert_eq!(StatusCode::new(299).unwrap().to_text(), "299 <unknown status code>");
    assert_eq!(StatusCode::new(599).unwrap().to_text(), "599 <unknown status code>");
    let response = reply(299, HttpVersion::Http11, Vec::new(), "");
    assert_eq!(
        HttpParser::from_response(&response).parse().unwrap(),
        "HTTP/1.1 299 <unknown status code>\r\n\r\n"
    );
}

#[test]
fn status_text_is_what_http_displays() {
    for code in 100..=599u16 {
        let theirs = http::StatusCode::from_u16(code).unwrap();
        let ours = StatusCode::new(code).unwrap();
        assert_eq!(ours.to_text(), theirs.to_string());
        assert_eq!(ours.canonical_reason(), theirs.canonical_reason());
    }
}

#[test]
fn render_status_with_a_given_reason() {
    let status = StatusCode::new(207).unwrap();
    assert_eq!(render_status(status, Some("Many")), "207 Many");
    assert_eq!(render_status(status, Some("")), "207 ");
    assert_eq!(render_status(status, None), "207 <unknown status code>");
    assert_eq!(render_status(StatusCode::new(100).unwrap(), Some("a")), "100 a");
    assert_eq!(render_status(StatusCode::new(590).unwrap(), Some("a")), "590 a");
    assert_eq!(render_status(StatusCode::new(409).unwrap(), Some("a")), "409 a");
}

#[test]
fn join_lines_puts_line_ends_between_lines() {
    assert_eq!(join_lines(&Vec::new()), "");
    assert_eq!(join_lines(&vec!["only".to_string()]), "only");
    assert_eq!(join_lines(&vec!["".to_string()]), "");
    assert_eq!(join_lines(&vec!["a".to_string(), "b".to_string()]), "a\r\nb");
    assert_eq!(
        join_lines(&vec!["a".to_string(), "".to_string(), "c".to_string()]),
        "a\r\n\r\nc"
    );
}

#[test]
fn lines_and_messages_from_their_parts() {
    assert_eq!(write_header_line("Host", "example.org"), "Host:example.org");
    assert_eq!(write_header_line("", ""), ":");
    assert_eq!(write_request_line("PUT", "/a b", "HTTP/1.0"), "PUT /a b HTTP/1.0");
    assert_eq!(write_status_line("HTTP/3", "200 OK"), "HTTP/3 200 OK");
    assert_eq!(write_message("S", "H:1\r\nI:2", "B"), "S\r\nH:1\r\nI:2\r\nB");
    assert_eq!(write_message("", "", ""), "\r\n\r\n");
}

#[test]
fn request_with_everything() {
    let request = Request {
        method: "POST".to_string(),
        target: "/submit?x=1".to_string(),
        version: HttpVersion::Http10,
        headers: vec![header("Host", b"example.org"), header("Content-Length", b"3")],
        body: "a=b".to_string(),
    };
    assert_eq!(
        HttpParser::from_request(&request).parse().unwrap(),
        "POST /submit?x=1 HTTP/1.0\r\nHost:example.org\r\nContent-Length:3\r\na=b"
    );
}
