use cartero::error::{BuildError, TransportError};
use cartero::executor::{Executor, TransportEvent};
use cartero::headers::{HeaderEntry, Headers};
use cartero::method::RequestMethod;
use cartero::request::{build_request, check_header_name, check_header_value, prepare, Request};
use cartero::url::check_url;

fn entry(name: &str, value: &str) -> HeaderEntry {
    HeaderEntry { name: String::from(name), value: String::from(value) }
}

#[test]
fn parse_accepts_every_supported_label() {
    assert_eq!(RequestMethod::parse("GET"), Ok(RequestMethod::Get));
    assert_eq!(RequestMethod::parse("POST"), Ok(RequestMethod::Post));
    assert_eq!(RequestMethod::parse("PUT"), Ok(RequestMethod::Put));
    assert_eq!(RequestMethod::parse("PATCH"), Ok(RequestMethod::Patch));
    assert_eq!(RequestMethod::parse("DELETE"), Ok(RequestMethod::Delete));
    assert_eq!(RequestMethod::parse("HEAD"), Ok(RequestMethod::Head));
    assert_eq!(RequestMethod::parse("OPTIONS"), Ok(RequestMethod::Options));
}

#[test]
fn parse_folds_ascii_case() {
    assert_eq!(RequestMethod::parse("get"), Ok(RequestMethod::Get));
    assert_eq!(RequestMethod::parse("Get"), Ok(RequestMethod::Get));
    assert_eq!(RequestMethod::parse("dElEtE"), Ok(RequestMethod::Delete));
}

#[test]
fn parse_rejects_other_labels() {
    assert_eq!(RequestMethod::parse(""), Err(BuildError::InvalidMethod));
    assert_eq!(RequestMethod::parse("FETCH"), Err(BuildError::InvalidMethod));
    assert_eq!(RequestMethod::parse("GETT"), Err(BuildError::InvalidMethod));
    assert_eq!(RequestMethod::parse("GET "), Err(BuildError::InvalidMethod));
}

#[test]
fn method_tokens_round_trip_through_parse() {
    for m in [
        RequestMethod::Get,
        RequestMethod::Post,
        RequestMethod::Put,
        RequestMethod::Patch,
        RequestMethod::Delete,
        RequestMethod::Head,
        RequestMethod::Options,
    ] {
        assert_eq!(RequestMethod::parse(m.token()), Ok(m));
    }
}

#[test]
fn url_check_accepts_absolute_http_urls() {
    assert!(check_url("http://example.test"));
    assert!(check_url("https://example.test/path?q=1"));
    assert!(check_url("http://localhost:8080/x"));
}

#[test]
fn url_check_rejects_malformed_urls() {
    assert!(!check_url(""));
    assert!(!check_url("not a url"));
    assert!(!check_url("example.test/path"));
    assert!(!check_url("ftp://example.test"));
    assert!(!check_url("http://"));
    assert!(!check_url("http:///path"));
    assert!(!check_url("http://exa mple.test"));
}

#[test]
fn header_syntax_checks() {
    assert!(check_header_name("Content-Type"));
    assert!(check_header_name("x_custom.1"));
    assert!(!check_header_name(""));
    assert!(!check_header_name("Bad Name"));
    assert!(!check_header_name("Bad:Name"));
    assert!(check_header_value("text/plain; charset=utf-8"));
    assert!(check_header_value(""));
    assert!(!check_header_value("line\r\nbreak"));
}

#[test]
fn headers_insert_overwrites_case_folded_duplicates() {
    let mut h = Headers::new();
    h.insert(String::from("Accept"), String::from("text/html"));
    h.insert(String::from("accept"), String::from("application/json"));
    h.insert(String::from("ACCEPT"), String::from("text/plain"));
    assert_eq!(h.len(), 1);
    assert_eq!(h.get("Accept"), Some(&String::from("text/plain")));
}

#[test]
fn headers_keep_distinct_names_in_insertion_order() {
    let mut h = Headers::new();
    h.insert(String::from("Accept"), String::from("text/html"));
    h.insert(String::from("User-Agent"), String::from("cartero"));
    h.insert(String::from("Accept-Encoding"), String::from("bzip"));
    assert_eq!(h.len(), 3);
    assert_eq!(h.name_at(0).as_str(), "Accept");
    assert_eq!(h.name_at(1).as_str(), "User-Agent");
    assert_eq!(h.name_at(2).as_str(), "Accept-Encoding");
    assert_eq!(h.value_at(1).as_str(), "cartero");
    assert_eq!(h.get("user-agent"), Some(&String::from("cartero")));
    assert_eq!(h.get("cookie"), None);
}

#[test]
fn headers_from_pairs_applies_last_write_wins() {
    let pairs = vec![
        entry("Accept", "text/html"),
        entry("X-One", "1"),
        entry("accept", "text/plain"),
    ];
    let h = Headers::from_pairs(pairs);
    assert_eq!(h.len(), 2);
    assert_eq!(h.name_at(0).as_str(), "accept");
    assert_eq!(h.get("ACCEPT"), Some(&String::from("text/plain")));
    assert_eq!(h.get("x-one"), Some(&String::from("1")));
}

#[test]
fn build_carries_method_body_and_headers() {
    let mut headers = Headers::new();
    headers.insert(String::from("Accept"), String::from("text/html"));
    headers.insert(String::from("X-Tag"), String::from("a b"));
    let request = Request {
        url: String::from("https://example.test/api"),
        method: RequestMethod::Post,
        body: String::from("payload: äöü"),
        headers,
    };
    let tr = build_request(&request).unwrap();
    assert_eq!(tr.url, "https://example.test/api");
    assert_eq!(tr.method, RequestMethod::Post);
    assert_eq!(tr.body, "payload: äöü");
    assert_eq!(tr.body_bytes(), "payload: äöü".as_bytes().to_vec());
    assert_eq!(tr.headers.len(), 2);
    assert_eq!(tr.headers.get("accept"), Some(&String::from("text/html")));
    assert_eq!(tr.headers.get("x-tag"), Some(&String::from("a b")));
}

#[test]
fn build_rejects_malformed_urls() {
    for bad in ["", "not a url", "example.test", "ftp://example.test", "http://"] {
        let request = Request {
            url: String::from(bad),
            method: RequestMethod::Get,
            body: String::new(),
            headers: Headers::new(),
        };
        assert_eq!(build_request(&request).unwrap_err(), BuildError::InvalidUrl);
    }
}

#[test]
fn build_rejects_bad_headers() {
    let mut headers = Headers::new();
    headers.insert(String::from("Bad Name"), String::from("v"));
    let request = Request {
        url: String::from("http://example.test"),
        method: RequestMethod::Get,
        body: String::new(),
        headers,
    };
    assert_eq!(build_request(&request).unwrap_err(), BuildError::InvalidHeader);

    let mut headers = Headers::new();
    headers.insert(String::from("X-Ok"), String::from("bad\nvalue"));
    let request = Request {
        url: String::from("http://example.test"),
        method: RequestMethod::Get,
        body: String::new(),
        headers,
    };
    assert_eq!(build_request(&request).unwrap_err(), BuildError::InvalidHeader);
}

#[test]
fn prepare_checks_method_before_url() {
    let r = prepare(String::from("not a url"), "FROB", String::new(), Headers::new());
    assert_eq!(r.unwrap_err(), BuildError::InvalidMethod);
    let r = prepare(String::from("not a url"), "GET", String::new(), Headers::new());
    assert_eq!(r.unwrap_err(), BuildError::InvalidUrl);
    let r = prepare(String::from("http://example.test"), "put", String::from("x"), Headers::new());
    let tr = r.unwrap();
    assert_eq!(tr.method, RequestMethod::Put);
    assert_eq!(tr.body, "x");
}

#[test]
fn round_trip_get_yields_normalized_response() {
    let tr = prepare(
        String::from("http://example.test/hello"),
        "GET",
        String::new(),
        Headers::new(),
    )
    .unwrap();
    assert_eq!(tr.method, RequestMethod::Get);

    let mut exec = Executor::new(2000);
    let token = exec.begin().unwrap();
    let event = TransportEvent::Completed {
        status: 200,
        headers: vec![entry("Content-Type", "text/plain")],
        body: b"hello".to_vec(),
    };
    let response = exec.settle(token, event).unwrap();
    assert_eq!(response.status, 200);
    assert_eq!(response.headers.get("content-type"), Some(&String::from("text/plain")));
    assert_eq!(response.body, "hello");
    assert!(!exec.is_pending());
}

#[test]
fn normalization_replaces_invalid_utf8() {
    let mut exec = Executor::new(1000);
    let token = exec.begin().unwrap();
    let event = TransportEvent::Completed {
        status: 200,
        headers: vec![],
        body: vec![0x68, 0x69, 0xff, 0x21],
    };
    let response = exec.settle(token, event).unwrap();
    assert_eq!(response.body, "hi\u{fffd}!");
}

#[test]
fn each_failure_event_maps_to_its_error() {
    let cases = [
        (TransportEvent::ConnectionFailed, TransportError::ConnectionError),
        (TransportEvent::TimedOut, TransportError::TimeoutError),
        (TransportEvent::Malformed, TransportError::ProtocolError),
        (TransportEvent::BodyReadFailed, TransportError::BodyReadError),
    ];
    for (event, expected) in cases {
        let mut exec = Executor::new(1000);
        let token = exec.begin().unwrap();
        let r = exec.settle(token, event);
        assert_eq!(r.unwrap_err(), expected);
    }
}

#[test]
fn timeout_event_reports_timeout_error() {
    let mut exec = Executor::new(2000);
    assert_eq!(exec.timeout_ms(), 2000);
    let token = exec.begin().unwrap();
    let r = exec.settle(token, TransportEvent::TimedOut);
    assert_eq!(r.unwrap_err(), TransportError::TimeoutError);
    assert!(!exec.is_pending());
}

#[test]
fn second_send_while_pending_is_rejected_as_busy() {
    let mut exec = Executor::new(1000);
    let token = exec.begin().unwrap();
    assert!(exec.is_pending());
    assert!(exec.begin().is_none());
    assert!(exec.begin().is_none());
    let _ = exec.settle(token, TransportEvent::ConnectionFailed);
    assert!(!exec.is_pending());
    assert!(exec.begin().is_some());
}

#[test]
fn decimal_rendering_is_exact() {
    assert_eq!(cartero::chars::u16_decimal(0), "0");
    assert_eq!(cartero::chars::u16_decimal(7), "7");
    assert_eq!(cartero::chars::u16_decimal(10), "10");
    assert_eq!(cartero::chars::u16_decimal(200), "200");
    assert_eq!(cartero::chars::u16_decimal(65535), "65535");
}

#[test]
fn display_text_formats_status_and_body() {
    let mut exec = Executor::new(1000);
    let token = exec.begin().unwrap();
    let event = TransportEvent::Completed {
        status: 404,
        headers: vec![],
        body: b"not here".to_vec(),
    };
    let response = exec.settle(token, event).unwrap();
    assert_eq!(response.display_text(), "HTTP 404\n\nnot here");
}

#[test]
fn error_texts_are_stable() {
    assert_eq!(BuildError::InvalidMethod.describe(), "invalid method");
    assert_eq!(BuildError::InvalidUrl.describe(), "invalid url");
    assert_eq!(BuildError::InvalidHeader.describe(), "invalid header");
    assert_eq!(TransportError::ConnectionError.describe(), "connection error");
    assert_eq!(TransportError::TimeoutError.describe(), "timeout");
    assert_eq!(TransportError::ProtocolError.describe(), "protocol error");
    assert_eq!(TransportError::BodyReadError.describe(), "body read error");
}

#[test]
fn duplicate_headers_copy_is_independent() {
    let mut h = Headers::new();
    h.insert(String::from("Accept"), String::from("text/html"));
    let copy = h.duplicate();
    h.insert(String::from("Accept"), String::from("text/plain"));
    assert_eq!(copy.get("accept"), Some(&String::from("text/html")));
    assert_eq!(h.get("accept"), Some(&String::from("text/plain")));
}
