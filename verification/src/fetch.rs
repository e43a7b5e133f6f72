//! A synchronous HTTP request: what the runtime is asked for, and what comes of its answer.

pub mod headers;

use crate::fetch::headers::{are_nul_free, header_lines, lemma_lines_nul_free, lists, texts, HeaderMap};
use crate::text::{
    ascii_uppercase, c_string, c_string_text, decimal, is_lossy_text, is_nul_free, lemma_c_string_ends,
    lemma_utf8_nul, nul_free, push_decimal, uppercase, utf8_lossy,
};
use std::borrow::Cow;
use std::str::Utf8Error;
use vstd::prelude::*;
use vstd::string::*;
use vstd::utf8::*;

verus! {

/// `EMSCRIPTEN_FETCH_LOAD_TO_MEMORY`: the body of the response is kept in memory.
pub const EMSCRIPTEN_FETCH_LOAD_TO_MEMORY: u32 = 1;

/// `EMSCRIPTEN_FETCH_REPLACE`: a cached response is not used.
pub const EMSCRIPTEN_FETCH_REPLACE: u32 = 16;

/// `EMSCRIPTEN_FETCH_SYNCHRONOUS`: the call returns when the response is there.
pub const EMSCRIPTEN_FETCH_SYNCHRONOUS: u32 = 64;

/// The response that a fetch brought, of whatever status. `fetch_result` gives out only those with a
/// status from 200 to 299.
pub struct FetchResponse {
    pub status: u16,
    pub status_text: String,
    pub bytes: Vec<u8>,
}

/// A request that is being put together.
#[derive(Debug)]
pub struct Request {
    method: String,
    url: String,
    headers: HeaderMap,
    body: Option<Vec<u8>>,
    timeout: u32,
    with_credentials: bool,
}

/// What a request asks for.
pub struct RequestView {
    pub method: Seq<char>,
    pub url: Seq<char>,
    pub headers: Map<Seq<char>, Seq<char>>,
    pub body: Option<Seq<u8>>,
    pub timeout: u32,
    pub with_credentials: bool,
}

/// The attributes of a fetch that a request sets.
#[allow(non_camel_case_types)]
#[derive(Debug)]
pub struct emscripten_fetch_attr_t {
    /// The HTTP method, as a C string.
    pub request_method: [u8; 32],
    /// `EMSCRIPTEN_FETCH_` flags.
    pub attributes: u32,
    /// The time limit in milliseconds, or 0 for none.
    pub timeout_msecs: u32,
    /// Whether cookies and authorization are sent along.
    pub with_credentials: bool,
    /// The headers, each fit for a C string.
    pub request_headers: Vec<String>,
    /// The body of the request, or nothing where the data pointer is null.
    pub request_data: Option<Vec<u8>>,
}

/// The outcome of a fetch.
#[allow(non_camel_case_types)]
#[derive(Debug)]
pub struct emscripten_fetch_t {
    /// The bytes at the data pointer, or nothing where that pointer is null.
    pub data: Option<Vec<u8>>,
    /// The HTTP status.
    pub status: u16,
    /// The text of the status, as a C string.
    pub status_text: [u8; 64],
}

/// A synchronous fetch.
#[derive(Debug)]
pub struct FetchCall {
    /// How to fetch.
    pub attr: emscripten_fetch_attr_t,
    /// What to fetch, fit for a C string.
    pub url: String,
}

/// The bytes of an optional vector.
pub open spec fn bytes_view(bytes: Option<Vec<u8>>) -> Option<Seq<u8>> {
    match bytes {
        Some(bytes) => Some(bytes@),
        None => None,
    }
}

impl View for Request {
    type V = RequestView;

    closed spec fn view(&self) -> RequestView {
        RequestView {
            method: self.method@,
            url: self.url@,
            headers: self.headers@,
            body: bytes_view(self.body),
            timeout: self.timeout,
            with_credentials: self.with_credentials,
        }
    }
}

impl RequestView {
    /// The request for nothing in particular.
    pub open spec fn default() -> RequestView {
        RequestView {
            method: Seq::empty(),
            url: Seq::empty(),
            headers: Map::empty(),
            body: None,
            timeout: 0,
            with_credentials: false,
        }
    }

    /// The request with this method.
    pub open spec fn with_method(self, method: Seq<char>) -> RequestView {
        RequestView { method, ..self }
    }

    /// The request with this header, in place of the value that it had.
    pub open spec fn with_header(self, name: Seq<char>, value: Seq<char>) -> RequestView {
        RequestView { headers: self.headers.insert(name, value), ..self }
    }

    /// The request with this body.
    pub open spec fn with_body(self, body: Seq<u8>) -> RequestView {
        RequestView { body: Some(body), ..self }
    }

    /// The request with this time limit.
    pub open spec fn with_timeout(self, timeout: u32) -> RequestView {
        RequestView { timeout, ..self }
    }

    /// The request with or without credentials.
    pub open spec fn with_credentials_set(self, with_credentials: bool) -> RequestView {
        RequestView { with_credentials, ..self }
    }

    /// A request whose texts are fit for C strings.
    pub open spec fn is_sendable(self) -> bool {
        &&& nul_free(self.url)
        &&& nul_free(self.method)
        &&& are_nul_free(self.headers)
    }
}

/// A method as the 32 bytes of its field hold it: as much as leaves room for the NUL that ends it.
/// What stands behind is as it was.
pub open spec fn method_field(initial: Seq<u8>, method: Seq<u8>) -> Seq<u8> {
    let kept = method_kept(method);
    kept.push(0) + initial.skip(kept.len() as int + 1)
}

/// The first 31 bytes of a method.
pub open spec fn method_kept(method: Seq<u8>) -> Seq<u8> {
    if method.len() < 32 {
        method
    } else {
        method.take(31)
    }
}

impl Default for Request {
    fn default() -> (r: Self)
        ensures
            r@ == RequestView::default(),
    {
        Request {
            method: String::new(),
            url: String::new(),
            headers: HeaderMap::new(),
            body: None,
            timeout: 0,
            with_credentials: false,
        }
    }
}

impl Request {
    /// A `GET` request.
    pub fn new(url: String) -> (r: Self)
        ensures
            r@ == (RequestView { url: url@, method: "GET"@, ..RequestView::default() }),
    {
        Request { url, method: "GET".to_owned(), ..Default::default() }
    }

    /// Sets the method, in upper case.
    pub fn method(self, method: &str) -> (r: Self)
        ensures
            r@ == self@.with_method(uppercase(method@)),
            is_ascii_chars(method@) ==> r@.method == ascii_uppercase(method@),
    {
        Request { method: method.to_uppercase(), ..self }
    }

    /// Sets a header, in place of the value that it had.
    pub fn header(self, name: &str, value: &str) -> (r: Self)
        ensures
            r@ == self@.with_header(name@, value@),
    {
        Request { headers: self.headers.with(name.to_owned(), value.to_owned()), ..self }
    }

    /// Sets the body.
    pub fn body(self, body: Vec<u8>) -> (r: Self)
        ensures
            r@ == self@.with_body(body@),
    {
        Request { body: Some(body), ..self }
    }

    /// Sets the time limit in milliseconds.
    pub fn timeout(self, timeout_ms: u32) -> (r: Self)
        ensures
            r@ == self@.with_timeout(timeout_ms),
    {
        Request { timeout: timeout_ms, ..self }
    }

    /// Sets whether cookies and authorization are sent along.
    pub fn with_credentials(self, with_credentials: bool) -> (r: Self)
        ensures
            r@ == self@.with_credentials_set(with_credentials),
    {
        Request { with_credentials, ..self }
    }

    /// Whether C strings can hold all texts of the request, so that it can be sent.
    pub fn is_sendable(&self) -> (r: bool)
        ensures
            r == self@.is_sendable(),
    {
        is_nul_free(self.url.as_str()) && is_nul_free(self.method.as_str())
            && self.headers.is_nul_free()
    }

    /// The fetch that this request asks for. `initial` is what the runtime initialises the
    /// attributes to.
    pub fn send_sync(self, initial: emscripten_fetch_attr_t) -> (r: FetchCall)
        requires
            self@.is_sendable(),
        ensures
            r.url@ == self@.url,
            r.attr.request_method@ == method_field(
                initial.request_method@,
                encode_utf8(self@.method),
            ),
            r.attr.attributes == EMSCRIPTEN_FETCH_LOAD_TO_MEMORY | EMSCRIPTEN_FETCH_SYNCHRONOUS
                | EMSCRIPTEN_FETCH_REPLACE,
            r.attr.attributes == 81,
            r.attr.timeout_msecs == self@.timeout,
            r.attr.with_credentials == self@.with_credentials,
            exists|order: Seq<(Seq<char>, Seq<char>)>| #[trigger]
                lists(order, self@.headers) && texts(r.attr.request_headers@) == header_lines(order),
            forall|i: int|
                0 <= i < r.attr.request_headers@.len() ==> nul_free(
                    (#[trigger] r.attr.request_headers@[i])@,
                ),
            bytes_view(r.attr.request_data) == self@.body,
    {
        let request_headers = self.headers.lines();
        proof {
            let order = choose|order: Seq<(Seq<char>, Seq<char>)>| #[trigger]
                lists(order, self.headers@) && texts(request_headers@) == header_lines(order);
            assert(lists(order, self@.headers));
            lemma_lines_nul_free(order, self@.headers);
            assert forall|i: int| 0 <= i < request_headers@.len() implies nul_free(
                (#[trigger] request_headers@[i])@,
            ) by {
                assert(texts(request_headers@)[i] == header_lines(order)[i]);
            }
        }
        let mut request_method = initial.request_method;
        write_method(&mut request_method, self.method.as_str());
        let attributes: u32 = EMSCRIPTEN_FETCH_LOAD_TO_MEMORY | EMSCRIPTEN_FETCH_SYNCHRONOUS
            | EMSCRIPTEN_FETCH_REPLACE;
        assert(1u32 | 64u32 | 16u32 == 81) by (bit_vector);
        let attr = emscripten_fetch_attr_t {
            request_method,
            attributes,
            timeout_msecs: self.timeout,
            with_credentials: self.with_credentials,
            request_headers,
            request_data: self.body,
        };
        FetchCall { attr, url: self.url }
    }
}

impl emscripten_fetch_t {
    /// The text of the status has to be a C string: a NUL ends it within its field.
    pub open spec fn is_readable(self) -> bool {
        self.status_text@.contains(0)
    }

    /// The bytes that were fetched: a null pointer stands for none.
    pub open spec fn payload(self) -> Seq<u8> {
        match self.data {
            Some(bytes) => bytes@,
            None => Seq::empty(),
        }
    }
}

/// What a fetch that did not even start is answered with.
pub open spec fn not_started() -> Seq<char> {
    "Failed to initiate fetch request"@
}

/// What a fetch with a status outside 200 to 299 is answered with.
pub open spec fn http_error(status: u16, status_text: Seq<char>) -> Seq<char> {
    "HTTP error: "@ + decimal(status as nat) + " - "@ + status_text
}

/// The statuses of success.
pub open spec fn is_success(status: u16) -> bool {
    200 <= status < 300
}

impl FetchResponse {
    /// The body as text, ill-formed UTF-8 replaced. It always succeeds.
    pub fn text(&self) -> (r: Result<Cow<'_, str>, Utf8Error>)
        ensures
            r matches Ok(text) && is_lossy_text(text@, self.bytes@),
    {
        Ok(String::from_utf8_lossy(self.bytes.as_slice()))
    }

    /// The response that a fetch holds.
    pub fn from_raw(fetch: emscripten_fetch_t) -> (r: Self)
        requires
            fetch.is_readable(),
        ensures
            r.status == fetch.status,
            is_lossy_text(r.status_text@, c_string(fetch.status_text@)),
            r.bytes@ == fetch.payload(),
    {
        let status_text = c_string_text(fetch.status_text.as_slice());
        let bytes: Vec<u8> = match fetch.data {
            Some(bytes) => bytes,
            None => Vec::new(),
        };
        FetchResponse { status: fetch.status, status_text, bytes }
    }
}

/// Explains a status outside 200 to 299.
pub fn http_error_message(status: u16, status_text: &str) -> (r: String)
    ensures
        r@ == http_error(status, status_text@),
{
    let mut message = "HTTP error: ".to_owned();
    push_decimal(&mut message, status);
    message.append(" - ");
    message.append(status_text);
    message
}

/// What comes of a fetch: the response where its status is one of success, and else an explanation.
/// Nothing stands for a fetch that did not start.
pub fn fetch_result(fetched: Option<emscripten_fetch_t>) -> (r: Result<FetchResponse, String>)
    requires
        fetched matches Some(fetch) ==> fetch.is_readable(),
    ensures
        match fetched {
            None => r matches Err(message) && message@ == not_started(),
            Some(fetch) => if is_success(fetch.status) {
                r matches Ok(response) && response.status == fetch.status && is_lossy_text(
                    response.status_text@,
                    c_string(fetch.status_text@),
                ) && response.bytes@ == fetch.payload()
            } else {
                r matches Err(message) && message@ == http_error(
                    fetch.status,
                    utf8_lossy(c_string(fetch.status_text@)),
                ) && is_lossy_text(
                    utf8_lossy(c_string(fetch.status_text@)),
                    c_string(fetch.status_text@),
                )
            },
        },
{
    match fetched {
        None => Err("Failed to initiate fetch request".to_owned()),
        Some(fetch) => {
            let status = fetch.status;
            if 200 <= status && status < 300 {
                Ok(FetchResponse::from_raw(fetch))
            } else {
                let status_text = c_string_text(fetch.status_text.as_slice());
                Err(http_error_message(status, status_text.as_str()))
            }
        },
    }
}

/// Writes a method into its field, as a C string.
pub fn write_method(request_method: &mut [u8; 32], method: &str)
    ensures
        final(request_method)@ == method_field(old(request_method)@, encode_utf8(method@)),
{
    let bytes = method.as_bytes();
    let room: usize = 31;
    let kept: usize = if bytes.len() < room {
        bytes.len()
    } else {
        room
    };
    let mut i: usize = 0;
    while i < kept
        invariant
            i <= kept <= 31,
            kept <= bytes@.len(),
            request_method@.len() == 32,
            request_method@ =~= bytes@.take(i as int) + old(request_method)@.skip(i as int),
        decreases kept - i,
    {
        request_method[i] = bytes[i];
        i = i + 1;
    }
    request_method[kept] = 0;
    assert(request_method@ =~= method_field(old(request_method)@, encode_utf8(method@)));
}

/// The runtime reads a method back as it was set, up to the 31 bytes that its field has room for.
pub proof fn lemma_method_is_read_back(initial: Seq<u8>, method: Seq<char>)
    requires
        initial.len() == 32,
        nul_free(method),
    ensures
        c_string(method_field(initial, encode_utf8(method))) == method_kept(encode_utf8(method)),
        encode_utf8(method).len() < 32 ==> c_string(method_field(initial, encode_utf8(method)))
            == encode_utf8(method),
        method_field(initial, encode_utf8(method)).len() == 32,
{
    let bytes = encode_utf8(method);
    let kept = method_kept(bytes);
    lemma_utf8_nul(method);
    assert forall|b: u8| kept.contains(b) implies b != 0 by {
        let i = choose|i: int| 0 <= i < kept.len() && kept[i] == b;
        assert(bytes[i] == b);
    }
    lemma_c_string_ends(kept, initial.skip(kept.len() as int + 1));
}

/// Whatever is set twice keeps the later value.
pub proof fn lemma_later_setting_wins(
    request: RequestView,
    texts: (Seq<char>, Seq<char>, Seq<char>),
    bodies: (Seq<u8>, Seq<u8>),
    timeouts: (u32, u32),
    credentials: (bool, bool),
)
    ensures
        request.with_method(texts.0).with_method(texts.1) == request.with_method(texts.1),
        request.with_header(texts.0, texts.1).with_header(texts.0, texts.2) == request.with_header(
            texts.0,
            texts.2,
        ),
        request.with_body(bodies.0).with_body(bodies.1) == request.with_body(bodies.1),
        request.with_timeout(timeouts.0).with_timeout(timeouts.1) == request.with_timeout(
            timeouts.1,
        ),
        request.with_credentials_set(credentials.0).with_credentials_set(credentials.1)
            == request.with_credentials_set(credentials.1),
{
    assert(request.headers.insert(texts.0, texts.1).insert(texts.0, texts.2)
        =~= request.headers.insert(texts.0, texts.2));
}

/// Settings do not depend on the order in which they are made, headers with different names
/// included.
pub proof fn lemma_settings_are_independent(
    request: RequestView,
    method: Seq<char>,
    header: (Seq<char>, Seq<char>),
    other: (Seq<char>, Seq<char>),
    body: Seq<u8>,
    timeout: u32,
    credentials: bool,
)
    ensures
        header.0 != other.0 ==> request.with_header(header.0, header.1).with_header(
            other.0,
            other.1,
        ) == request.with_header(other.0, other.1).with_header(header.0, header.1),
        request.with_method(method).with_header(header.0, header.1) == request.with_header(
            header.0,
            header.1,
        ).with_method(method),
        request.with_method(method).with_body(body) == request.with_body(body).with_method(method),
        request.with_method(method).with_timeout(timeout) == request.with_timeout(
            timeout,
        ).with_method(method),
        request.with_method(method).with_credentials_set(credentials)
            == request.with_credentials_set(credentials).with_method(method),
        request.with_header(header.0, header.1).with_body(body) == request.with_body(
            body,
        ).with_header(header.0, header.1),
        request.with_header(header.0, header.1).with_timeout(timeout) == request.with_timeout(
            timeout,
        ).with_header(header.0, header.1),
        request.with_header(header.0, header.1).with_credentials_set(credentials)
            == request.with_credentials_set(credentials).with_header(header.0, header.1),
        request.with_body(body).with_timeout(timeout) == request.with_timeout(timeout).with_body(
            body,
        ),
        request.with_body(body).with_credentials_set(credentials) == request.with_credentials_set(
            credentials,
        ).with_body(body),
        request.with_timeout(timeout).with_credentials_set(credentials)
            == request.with_credentials_set(credentials).with_timeout(timeout),
{
    if header.0 != other.0 {
        assert(request.headers.insert(header.0, header.1).insert(other.0, other.1)
            =~= request.headers.insert(other.0, other.1).insert(header.0, header.1));
    }
}

/// An ASCII method in upper case is its own upper case, so setting the same method again in either
/// case changes nothing.
pub proof fn lemma_upper_case_is_kept(method: Seq<char>)
    requires
        is_ascii_chars(method),
    ensures
        ascii_uppercase(ascii_uppercase(method)) == ascii_uppercase(method),
        is_ascii_chars(ascii_uppercase(method)),
{
    assert(ascii_uppercase(ascii_uppercase(method)) =~= ascii_uppercase(method));
}

} // verus!
