use http::{decimal_text, HeaderMap, HttpResponse};

fn default_header_map() -> HeaderMap {
    let mut h = HeaderMap::new();
    h.insert("Content-Type", "text/html");
    h
}

#[test]
fn test_response_struct_createion_200() {
    let response_actual = HttpResponse::new("200", None, Some("xxx".into()));

    let headers_expected = {
        let mut h = HeaderMap::new();
        h.insert("Content-Type", "text/html");
        h
    };

    assert_eq!(response_actual.version(), "HTTP/1.1");
    assert_eq!(response_actual.status_code(), "200");
    assert_eq!(response_actual.status_text(), "OK");
    assert_eq!(response_actual.header_map(), &headers_expected);
    assert_eq!(response_actual.body(), "xxx");
}

#[test]
fn known_codes_take_the_table_text() {
    let cases = [
        ("200", "OK"),
        ("400", "Bad Request"),
        ("404", "Not Found"),
        ("500", "Internal Server Error"),
    ];
    for (code, text) in cases {
        let r = HttpResponse::new(code, None, None);
        assert_eq!(r.status_code(), code);
        assert_eq!(r.status_text(), text);
    }
}

#[test]
fn unknown_codes_read_not_found() {
    for code in ["201", "301", "418", "503", "", "abc", "2000"] {
        let r = HttpResponse::new(code, None, None);
        assert_eq!(r.status_code(), code);
        assert_eq!(r.status_text(), "Not Found");
    }
}

#[test]
fn absent_headers_default_to_content_type_html() {
    let r = HttpResponse::new("500", None, Some("oops".to_string()));
    assert_eq!(r.header_map().len(), 1);
    assert_eq!(r.header_map().entry(0), ("Content-Type", "text/html"));
    assert_eq!(r.headers(), "Content-Type:text/html\r\n");
}

#[test]
fn given_headers_are_kept_unchanged() {
    let mut h = HeaderMap::new();
    h.insert("Server", "tiny");
    h.insert("X-Trace", "42");
    let r = HttpResponse::new("200", Some(h), None);
    assert_eq!(r.header_map().len(), 2);
    assert_eq!(r.header_map().entry(0), ("Server", "tiny"));
    assert_eq!(r.header_map().entry(1), ("X-Trace", "42"));
    assert_eq!(r.headers(), "Server:tiny\r\nX-Trace:42\r\n");
}

#[test]
fn empty_given_headers_stay_empty() {
    let r = HttpResponse::new("200", Some(HeaderMap::new()), Some("hi".to_string()));
    assert_eq!(r.header_map().len(), 0);
    assert_eq!(r.to_wire(), "HTTP/1.1 200 OK\r\nContent-Length: 2;\r\n\r\nhi");
}

#[test]
fn inserting_a_name_again_replaces_its_value_in_place() {
    let mut h = HeaderMap::new();
    h.insert("A", "1");
    h.insert("B", "2");
    h.insert("A", "3");
    assert_eq!(h.len(), 2);
    assert_eq!(h.entry(0), ("A", "3"));
    assert_eq!(h.entry(1), ("B", "2"));
}

#[test]
fn serializes_default_response_exactly() {
    let r = HttpResponse::new("200", None, Some("xxx".into()));
    assert_eq!(
        r.to_wire(),
        "HTTP/1.1 200 OK\r\nContent-Type:text/html\r\nContent-Length: 3;\r\n\r\nxxx"
    );
}

#[test]
fn serializing_is_deterministic() {
    let mut h1 = HeaderMap::new();
    h1.insert("Server", "tiny");
    h1.insert("Content-Type", "text/plain");
    let mut h2 = HeaderMap::new();
    h2.insert("Server", "tiny");
    h2.insert("Content-Type", "text/plain");
    let a = HttpResponse::new("404", Some(h1), Some("gone".to_string()));
    let b = HttpResponse::new("404", Some(h2), Some("gone".to_string()));
    assert_eq!(a.to_wire(), b.to_wire());
    assert_eq!(a.to_wire(), a.to_wire());
    assert_eq!(
        a.to_wire(),
        "HTTP/1.1 404 Not Found\r\nServer:tiny\r\nContent-Type:text/plain\r\nContent-Length: 4;\r\n\r\ngone"
    );
}

#[test]
fn empty_body_declares_length_zero() {
    let r = HttpResponse::new("200", None, Some(String::new()));
    let wire = r.to_wire();
    assert_eq!(wire, "HTTP/1.1 200 OK\r\nContent-Type:text/html\r\nContent-Length: 0;\r\n\r\n");
    assert!(wire.ends_with("Content-Length: 0;\r\n\r\n"));
}

#[test]
fn absent_body_is_sent_as_empty() {
    let r = HttpResponse::new("400", None, None);
    assert_eq!(r.body(), "");
    assert_eq!(
        r.to_wire(),
        "HTTP/1.1 400 Bad Request\r\nContent-Type:text/html\r\nContent-Length: 0;\r\n\r\n"
    );
    let with_empty = HttpResponse::new("400", None, Some(String::new()));
    assert_eq!(r.to_wire(), with_empty.to_wire());
}

#[test]
fn content_length_counts_utf8_bytes() {
    let r = HttpResponse::new("200", Some(HeaderMap::new()), Some("héllo €".to_string()));
    assert_eq!(r.to_wire(), "HTTP/1.1 200 OK\r\nContent-Length: 10;\r\n\r\nhéllo €");
}

#[test]
fn content_length_of_a_long_body() {
    let body = "a".repeat(1234);
    let r = HttpResponse::new("200", Some(HeaderMap::new()), Some(body.clone()));
    assert_eq!(r.to_wire(), format!("HTTP/1.1 200 OK\r\nContent-Length: 1234;\r\n\r\n{}", body));
}

#[test]
fn decimal_text_renders_numbers() {
    assert_eq!(decimal_text(0), "0");
    assert_eq!(decimal_text(7), "7");
    assert_eq!(decimal_text(10), "10");
    assert_eq!(decimal_text(305), "305");
    assert_eq!(decimal_text(usize::MAX), usize::MAX.to_string());
}

#[test]
fn send_response_writes_the_wire_text() {
    let r = HttpResponse::new("200", Some(default_header_map()), Some("xxx".into()));
    let mut out: Vec<u8> = Vec::new();
    assert!(r.send_response(&mut out).is_ok());
    assert_eq!(
        String::from_utf8(out).unwrap(),
        "HTTP/1.1 200 OK\r\nContent-Type:text/html\r\nContent-Length: 3;\r\n\r\nxxx"
    );
}

struct FailingSink;

impl std::io::Write for FailingSink {
    fn write(&mut self, _buf: &[u8]) -> std::io::Result<usize> {
        Err(std::io::Error::new(std::io::ErrorKind::BrokenPipe, "closed"))
    }

    fn flush(&mut self) -> std::io::Result<()> {
        Ok(())
    }
}

#[test]
fn send_response_reports_success_when_the_sink_fails() {
    let r = HttpResponse::new("500", None, Some("x".into()));
    let mut sink = FailingSink;
    assert!(r.send_response(&mut sink).is_ok());
}
