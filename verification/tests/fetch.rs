use emscripten::fetch::{
    emscripten_fetch_attr_t, emscripten_fetch_t, fetch_result, http_error_message, write_method,
    FetchCall, FetchResponse, Request,
};
use emscripten::text::c_string_bytes;

fn initial() -> emscripten_fetch_attr_t {
    emscripten_fetch_attr_t {
        request_method: [0; 32],
        attributes: 0,
        timeout_msecs: 0,
        with_credentials: false,
        request_headers: Vec::new(),
        request_data: None,
    }
}

fn fetch(request: Request) -> FetchCall {
    assert!(request.is_sendable());
    request.send_sync(initial())
}

fn fetched(status: u16, status_text: &[u8], data: Option<&[u8]>) -> emscripten_fetch_t {
    let mut field = [0u8; 64];
    field[..status_text.len()].copy_from_slice(status_text);
    emscripten_fetch_t { data: data.map(|d| d.to_vec()), status, status_text: field }
}

#[test]
fn a_new_request_is_a_plain_get() {
    let call = fetch(Request::new("https://example.org".to_owned()));
    assert_eq!(call.url, "https://example.org");
    assert_eq!(c_string_bytes(&call.attr.request_method), b"GET".to_vec());
    assert_eq!(call.attr.attributes, 1 | 16 | 64);
    assert_eq!(call.attr.timeout_msecs, 0);
    assert!(!call.attr.with_credentials);
    assert!(call.attr.request_headers.is_empty());
    assert_eq!(call.attr.request_data, None);
}

#[test]
fn a_default_request_has_no_method() {
    let call = fetch(Request::default());
    assert_eq!(call.url, "");
    assert_eq!(call.attr.request_method, [0; 32]);
    assert_eq!(call.attr.attributes, 81);
    assert_eq!(call.attr.request_data, None);
}

#[test]
fn a_request_keeps_what_is_set() {
    let call = fetch(
        Request::new("u".to_owned())
            .method("post")
            .header("Content-Type", "text/plain")
            .body(vec![1, 2, 3])
            .timeout(250)
            .with_credentials(true),
    );
    assert_eq!(c_string_bytes(&call.attr.request_method), b"POST".to_vec());
    assert_eq!(call.attr.request_headers, vec!["Content-Type: text/plain".to_owned()]);
    assert_eq!(call.attr.request_data, Some(vec![1, 2, 3]));
    assert_eq!(call.attr.timeout_msecs, 250);
    assert!(call.attr.with_credentials);
}

#[test]
fn methods_are_upper_case() {
    for (given, expected) in [("get", "GET"), ("PaTcH", "PATCH"), ("m-search", "M-SEARCH"), ("stra\u{df}e", "STRASSE")] {
        let call = fetch(Request::new("u".to_owned()).method(given));
        assert_eq!(c_string_bytes(&call.attr.request_method), expected.as_bytes().to_vec());
    }
}

#[test]
fn a_header_keeps_its_later_value() {
    let request = Request::new("u".to_owned()).header("a", "1").header("b", "2").header("a", "3");
    let mut lines = fetch(request).attr.request_headers;
    lines.sort();
    assert_eq!(lines, vec!["a: 3".to_owned(), "b: 2".to_owned()]);
    let request = Request::new("u".to_owned()).header("b", "2").header("a", "3");
    let mut lines = fetch(request).attr.request_headers;
    lines.sort();
    assert_eq!(lines, vec!["a: 3".to_owned(), "b: 2".to_owned()]);
}

#[test]
fn the_order_of_settings_does_not_matter() {
    let one = fetch(Request::new("u".to_owned()).timeout(1).body(vec![9]).method("put").timeout(2));
    let two = fetch(Request::new("u".to_owned()).method("get").method("put").timeout(2).body(vec![9]));
    assert_eq!(one.attr.request_method, two.attr.request_method);
    assert_eq!(one.attr.timeout_msecs, two.attr.timeout_msecs);
    assert_eq!(one.attr.timeout_msecs, 2);
    assert_eq!(one.attr.request_data, two.attr.request_data);
}

#[test]
fn requests_with_nul_cannot_be_sent() {
    assert!(Request::new("u".to_owned()).is_sendable());
    assert!(!Request::new("u\0".to_owned()).is_sendable());
    assert!(!Request::new("u".to_owned()).method("G\0").is_sendable());
    assert!(!Request::new("u".to_owned()).header("n\0", "v").is_sendable());
    assert!(!Request::new("u".to_owned()).header("n", "\0v").is_sendable());
    assert!(Request::new("u".to_owned()).header("n", "\0").header("n", "v").is_sendable());
}

#[test]
fn a_method_is_cut_to_its_field() {
    let mut field = [7u8; 32];
    write_method(&mut field, "PUT");
    assert_eq!(field[..5], [b'P', b'U', b'T', 0, 7]);
    let mut field = [7u8; 32];
    write_method(&mut field, "");
    assert_eq!(field[..2], [0, 7]);
    let mut field = [7u8; 32];
    write_method(&mut field, "ABCDEFGHIJKLMNOPQRSTUVWXYZ01234");
    assert_eq!(field[..31], *b"ABCDEFGHIJKLMNOPQRSTUVWXYZ01234");
    assert_eq!(field[31], 0);
    let mut field = [7u8; 32];
    write_method(&mut field, "ABCDEFGHIJKLMNOPQRSTUVWXYZ0123456789");
    assert_eq!(field[..31], *b"ABCDEFGHIJKLMNOPQRSTUVWXYZ01234");
    assert_eq!(field[31], 0);
}

#[test]
fn a_fetch_that_does_not_start() {
    assert_eq!(fetch_result(None).err(), Some("Failed to initiate fetch request".to_owned()));
}

#[test]
fn a_status_of_success_gives_the_response() {
    for status in [200, 204, 299] {
        let response = fetch_result(Some(fetched(status, b"OK", Some(b"body")))).ok().unwrap();
        assert_eq!(response.status, status);
        assert_eq!(response.status_text, "OK");
        assert_eq!(response.bytes, b"body".to_vec());
    }
    let response = fetch_result(Some(fetched(200, b"", None))).ok().unwrap();
    assert!(response.bytes.is_empty());
    assert_eq!(response.status_text, "");
}

#[test]
fn any_other_status_is_an_error() {
    let failure = |status, text: &[u8]| fetch_result(Some(fetched(status, text, Some(b"x")))).err();
    assert_eq!(failure(404, b"Not Found"), Some("HTTP error: 404 - Not Found".to_owned()));
    assert_eq!(failure(199, b"?"), Some("HTTP error: 199 - ?".to_owned()));
    assert_eq!(failure(300, b"\xff"), Some("HTTP error: 300 - \u{FFFD}".to_owned()));
    assert_eq!(failure(0, b""), Some("HTTP error: 0 - ".to_owned()));
}

#[test]
fn explanations_of_a_status() {
    assert_eq!(http_error_message(503, "Busy"), "HTTP error: 503 - Busy");
    assert_eq!(http_error_message(65535, ""), "HTTP error: 65535 - ");
}

#[test]
fn raw_responses() {
    let response = FetchResponse::from_raw(fetched(500, b"Oops\0hidden", Some(b"\x00\x01")));
    assert_eq!(response.status, 500);
    assert_eq!(response.status_text, "Oops");
    assert_eq!(response.bytes, vec![0, 1]);
}

#[test]
fn the_text_of_a_response() {
    let response = |bytes: &[u8]| FetchResponse {
        status: 200,
        status_text: String::new(),
        bytes: bytes.to_vec(),
    };
    assert_eq!(response("\u{4e2d}".as_bytes()).text().unwrap(), "\u{4e2d}");
    assert_eq!(response(b"a\xf0b").text().unwrap(), "a\u{FFFD}b");
    assert_eq!(response(b"").text().unwrap(), "");
}

#[test]
fn requests_show_their_headers_as_a_map() {
    assert_eq!(
        format!("{:?}", Request::new("u".to_owned())),
        "Request { method: \"GET\", url: \"u\", headers: {}, body: None, timeout: 0, \
         with_credentials: false }"
    );
    let request = Request::new("u".to_owned()).header("a", "1").header("b", "2").header("a", "\"3\"");
    let one = "headers: {\"a\": \"\\\"3\\\"\", \"b\": \"2\"}";
    let two = "headers: {\"b\": \"2\", \"a\": \"\\\"3\\\"\"}";
    let shown = format!("{:?}", request);
    assert!(shown.contains(one) || shown.contains(two), "{shown}");
}
