use backend::http::{
    body_length, file_headers, file_path, header_counts, parse_first_line, parse_header,
    parse_query, parse_target, response_head, Entries, Headers, HttpError, Request, RequestReader,
};

fn pairs_of(q: &Entries<Option<String>>) -> Vec<(String, Option<String>)> {
    q.pairs.clone()
}

fn pair(k: &str, v: Option<&str>) -> (String, Option<String>) {
    (k.to_string(), v.map(|s| s.to_string()))
}

fn headers_of(list: &[(&str, &str)]) -> Headers {
    let mut headers = Headers::new();
    for (k, v) in list {
        headers.insert(k.to_string(), v.to_string());
    }
    headers
}

#[test]
fn parse_query_cuts_at_ampersands_and_first_equals() {
    let q = parse_query("a=1&b&c=3=4&d=".to_string());
    assert_eq!(
        pairs_of(&q),
        vec![pair("a", Some("1")), pair("b", None), pair("c", Some("3=4")), pair("d", Some(""))]
    );
}

#[test]
fn parse_query_of_nothing_is_one_empty_name() {
    assert_eq!(pairs_of(&parse_query(String::new())), vec![pair("", None)]);
    assert_eq!(pairs_of(&parse_query("&".to_string())), vec![pair("", None), pair("", None)]);
}

#[test]
fn parse_query_agrees_with_a_hash_map() {
    for query in ["a=1&b=2&a=3", "x", "x&x=1", "k=v&k&k=w&j", "=&=1", "a&&b"] {
        let expected: std::collections::HashMap<String, Option<String>> = query
            .split("&")
            .map(|p| {
                let p: Vec<_> = p.splitn(2, "=").collect();
                if p.len() == 2 {
                    (p[0].to_string(), Some(p[1].to_string()))
                } else {
                    (p[0].to_string(), None)
                }
            })
            .collect();
        let q = parse_query(query.to_string());
        for (k, v) in &expected {
            assert_eq!(q.get(k), Some(v), "{:?} in {:?}", k, query);
        }
        for (k, _) in &q.pairs {
            assert!(expected.contains_key(k));
        }
        assert_eq!(q.get("absent"), None);
    }
}

#[test]
fn the_later_of_two_values_counts() {
    let q = parse_query("a=1&b=2&a=3".to_string());
    assert_eq!(q.get("a"), Some(&Some("3".to_string())));
    assert_eq!(q.index_of("a"), Some(2));
    assert_eq!(q.index_of("b"), Some(1));
    assert_eq!(q.index_of("c"), None);
    let mut h = headers_of(&[("A", "1")]);
    h.insert("A".to_string(), "2".to_string());
    assert_eq!(h.get("A"), Some(&"2".to_string()));
    assert_eq!(h.get("a"), None);
}

#[test]
fn parse_target_splits_path_and_query() {
    let t = parse_target("/render?w=10&h=20");
    assert_eq!(t.path, "/render");
    assert_eq!(pairs_of(&t.query.unwrap()), vec![pair("w", Some("10")), pair("h", Some("20"))]);
    let t = parse_target("/index.html");
    assert_eq!(t.path, "/index.html");
    assert!(t.query.is_none());
    let t = parse_target("/a?b?c");
    assert_eq!(t.path, "/a");
    assert_eq!(pairs_of(&t.query.unwrap()), vec![pair("b?c", None)]);
    let t = parse_target("/a?");
    assert_eq!(pairs_of(&t.query.unwrap()), vec![pair("", None)]);
}

#[test]
fn first_line_holds_three_words() {
    let (method, target, version) = parse_first_line("GET /x?y=1 HTTP/1.1\r\n").unwrap();
    assert_eq!((method.as_str(), target.path.as_str(), version.as_str()), ("GET", "/x", "HTTP/1.1"));
    assert_eq!(pairs_of(&target.query.unwrap()), vec![pair("y", Some("1"))]);
    assert_eq!(parse_first_line("GET /x\r\n").err(), Some(HttpError::InvalidFirstLine));
    assert_eq!(parse_first_line("").err(), Some(HttpError::InvalidFirstLine));
    assert_eq!(parse_first_line("a b c d").err(), Some(HttpError::InvalidFirstLine));
    assert!(parse_first_line("  POST   /  HTTP/1.0  ").is_ok());
}

#[test]
fn header_lines_are_cut_at_the_first_colon_and_trimmed() {
    assert_eq!(
        parse_header("Host: localhost:8080\r\n"),
        Ok(Some(("Host".to_string(), "localhost:8080".to_string())))
    );
    assert_eq!(parse_header("  X :  y  \r\n"), Ok(Some(("X".to_string(), "y".to_string()))));
    assert_eq!(parse_header("Empty:\r\n"), Ok(Some(("Empty".to_string(), "".to_string()))));
    assert_eq!(parse_header("\r\n"), Ok(None));
    assert_eq!(parse_header(""), Ok(None));
    assert_eq!(parse_header("   \t"), Ok(None));
    assert_eq!(parse_header("no colon here\r\n"), Err(HttpError::InvalidHeader));
}

#[test]
fn body_length_reads_content_length() {
    assert_eq!(body_length(&headers_of(&[("Host", "x")])), Ok(None));
    assert_eq!(body_length(&headers_of(&[("Content-Length", "12")])), Ok(Some(12)));
    assert_eq!(body_length(&headers_of(&[("Content-Length", "0")])), Ok(Some(0)));
    assert_eq!(
        body_length(&headers_of(&[("Content-Length", "twelve")])),
        Err(HttpError::InvalidContentLength)
    );
    assert_eq!(
        body_length(&headers_of(&[("Content-Length", "-1")])),
        Err(HttpError::InvalidContentLength)
    );
    assert_eq!(
        body_length(&headers_of(&[("Content-Length", "4294967296")])),
        Err(HttpError::InvalidContentLength)
    );
    assert_eq!(
        body_length(&headers_of(&[("Content-Length", "x"), ("Content-Length", "5")])),
        Ok(Some(5))
    );
    assert_eq!(body_length(&headers_of(&[("content-length", "5")])), Ok(None));
}

#[test]
fn errors_have_their_words() {
    assert_eq!(HttpError::InvalidFirstLine.message(), "Invalid First Line");
    assert_eq!(HttpError::InvalidHeader.message(), "Invalid Header");
    assert_eq!(HttpError::InvalidContentLength.message(), "Invalid Content-Length");
}

#[test]
fn response_head_lists_the_headers_that_count() {
    let headers = headers_of(&[("A", "1"), ("B", "2"), ("A", "3")]);
    assert!(!header_counts(&headers, 0));
    assert!(header_counts(&headers, 1));
    assert!(header_counts(&headers, 2));
    assert_eq!(
        response_head("HTTP/1.1", "200 OK", &headers),
        "HTTP/1.1 200 OK\r\nB: 2\r\nA: 3\r\n\r\n"
    );
    assert_eq!(response_head("HTTP/1.0", "404 Not Found", &Headers::new()), "HTTP/1.0 404 Not Found\r\n\r\n");
}

#[test]
fn a_reader_reads_a_request_without_body() {
    let reader = RequestReader::new();
    let reader = reader.line("GET /a?b=c HTTP/1.1\r\n");
    assert!(matches!(reader, RequestReader::Header { .. }));
    let reader = reader.line("Host: h\r\n").line("Accept: */*\r\n");
    let reader = reader.line("\r\n");
    let request = match reader {
        RequestReader::Done(request) => request,
        _ => panic!("not done"),
    };
    assert_eq!(request.method(), "GET");
    assert_eq!(request.version(), "HTTP/1.1");
    assert_eq!(request.target().path, "/a");
    assert_eq!(request.target().query.as_ref().unwrap().get("b"), Some(&Some("c".to_string())));
    assert_eq!(request.header("Host"), Some("h"));
    assert_eq!(request.header("Accept"), Some("*/*"));
    assert_eq!(request.header("Missing"), None);
    assert_eq!(request.body(), None);
}

#[test]
fn a_reader_awaits_the_announced_body() {
    let reader = RequestReader::new()
        .line("POST /p HTTP/1.1\r\n")
        .line("Content-Length: 3\r\n")
        .line("\r\n");
    assert!(matches!(reader, RequestReader::Body { len: 3, .. }));
    // a line is not what it awaits
    let reader = reader.line("ignored\r\n");
    assert!(matches!(reader, RequestReader::Body { len: 3, .. }));
    let reader = reader.body(vec![1, 2, 3]);
    match reader {
        RequestReader::Done(request) => {
            assert_eq!(request.body(), Some(vec![1, 2, 3]));
            assert_eq!(request.method(), "POST");
        }
        _ => panic!("not done"),
    }
}

#[test]
fn a_reader_fails_on_what_it_cannot_read() {
    assert!(matches!(
        RequestReader::new().line("GET\r\n"),
        RequestReader::Failed(HttpError::InvalidFirstLine)
    ));
    assert!(matches!(
        RequestReader::new().line("GET / HTTP/1.1\r\n").line("nocolon\r\n"),
        RequestReader::Failed(HttpError::InvalidHeader)
    ));
    let failed = RequestReader::new()
        .line("GET / HTTP/1.1\r\n")
        .line("Content-Length: many\r\n")
        .line("\r\n");
    assert!(matches!(failed, RequestReader::Failed(HttpError::InvalidContentLength)));
    // and stays failed
    let failed = failed.line("Host: h\r\n").body(vec![1]);
    assert!(matches!(failed, RequestReader::Failed(HttpError::InvalidContentLength)));
    // a body that nothing awaits changes nothing
    assert!(matches!(RequestReader::new().body(vec![1]), RequestReader::FirstLine));
}

#[test]
fn respond_writes_head_and_body() {
    let (method, target, version) = parse_first_line("GET / HTTP/1.1").unwrap();
    let request = Request::new(method, target, version, Headers::new(), None);
    let bytes = request.respond("200 OK", &headers_of(&[("Content-Type", "text/plain")]), b"hi\xff".to_vec());
    assert_eq!(bytes, b"HTTP/1.1 200 OK\r\nContent-Type: text/plain\r\n\r\nhi\xff".to_vec());
    let bytes = request.respond("204 \u{e9}", &Headers::new(), Vec::new());
    assert_eq!(bytes, "HTTP/1.1 204 \u{e9}\r\n\r\n".as_bytes().to_vec());
}

#[test]
fn respond_with_file_adds_kind_and_length() {
    let (method, target, version) = parse_first_line("GET /f HTTP/1.0").unwrap();
    let request = Request::new(method, target, version, Headers::new(), None);
    let bytes = request.respond_with_file(
        "200 OK",
        headers_of(&[("Content-Length", "999"), ("X", "y")]),
        b"0123456789ab".to_vec(),
        "text/html",
    );
    assert_eq!(
        String::from_utf8(bytes).unwrap(),
        "HTTP/1.0 200 OK\r\nX: y\r\nContent-Type: text/html\r\nContent-Length: 12\r\n\r\n0123456789ab"
    );
    assert_eq!(file_path("index.html"), "html/index.html");
    let headers = file_headers(Headers::new(), "image/png", 0);
    assert_eq!(headers.get("Content-Length"), Some(&"0".to_string()));
    assert_eq!(headers.get("Content-Type"), Some(&"image/png".to_string()));
}
