//! Requests, what the runtime is asked for, and what comes of it.

use crate::fetch::headers::{header_lines, line, lists, texts, HeaderMap};
use crate::fetch::{
    emscripten_fetch_attr_t, emscripten_fetch_t, fetch_result, http_error_message, write_method,
    FetchCall, FetchResponse, Request,
};
use crate::laws::texts::{is_first_nul, is_numeral, lemma_c_string_is_prefix, lemma_decimal};
use crate::text::{uppercase, utf8_lossy};
use std::borrow::Cow;
use std::str::Utf8Error;
use vstd::prelude::*;
use vstd::utf8::*;

verus! {

/// A new request gets its URL with `GET`, and asks for nothing else.
pub proof fn lemma_new_request(url: String, r: Request)
    requires
        call_ensures(Request::new, (url,), r),
    ensures
        r@.url == url@,
        r@.method == "GET"@,
        r@.headers == Map::<Seq<char>, Seq<char>>::empty(),
        r@.body is None,
        r@.timeout == 0,
        !r@.with_credentials,
{
}

/// The default request has neither URL nor method, and asks for nothing.
pub proof fn lemma_default_request(r: Request)
    requires
        call_ensures(<Request as Default>::default, (), r),
    ensures
        r@.url.len() == 0,
        r@.method.len() == 0,
        r@.headers == Map::<Seq<char>, Seq<char>>::empty(),
        r@.body is None,
        r@.timeout == 0,
        !r@.with_credentials,
{
}

/// Setting the method sets it in upper case, and nothing else. In an ASCII method each small letter
/// becomes the capital one, and every other character stays.
pub proof fn lemma_set_method(request: Request, method: &str, r: Request)
    requires
        call_ensures(Request::method, (request, method), r),
    ensures
        r@.method == uppercase(method@),
        is_ascii_chars(method@) ==> {
            &&& r@.method.len() == method@.len()
            &&& forall|i: int|
                0 <= i < method@.len() ==> {
                    let c = method@[i];
                    #[trigger] r@.method[i] as int == (if 'a' <= c <= 'z' {
                        c as int - 32
                    } else {
                        c as int
                    })
                }
        },
        r@.url == request@.url,
        r@.headers == request@.headers,
        r@.body == request@.body,
        r@.timeout == request@.timeout,
        r@.with_credentials == request@.with_credentials,
{
}

/// Setting a header gives its name that value, and leaves every other header and all else alone.
pub proof fn lemma_set_header(request: Request, name: &str, value: &str, r: Request)
    requires
        call_ensures(Request::header, (request, name, value), r),
    ensures
        r@.headers.contains_key(name@),
        r@.headers[name@] == value@,
        forall|other: Seq<char>|
            other != name@ ==> {
                &&& #[trigger] r@.headers.contains_key(other) <==> request@.headers.contains_key(
                    other,
                )
                &&& request@.headers.contains_key(other) ==> r@.headers[other]
                    == request@.headers[other]
            },
        r@.url == request@.url,
        r@.method == request@.method,
        r@.body == request@.body,
        r@.timeout == request@.timeout,
        r@.with_credentials == request@.with_credentials,
{
}

/// Setting the body sets exactly these bytes, and nothing else.
pub proof fn lemma_set_body(request: Request, body: Vec<u8>, r: Request)
    requires
        call_ensures(Request::body, (request, body), r),
    ensures
        r@.body == Some(body@),
        r@.url == request@.url,
        r@.method == request@.method,
        r@.headers == request@.headers,
        r@.timeout == request@.timeout,
        r@.with_credentials == request@.with_credentials,
{
}

/// Setting the time limit sets exactly this number, and nothing else.
pub proof fn lemma_set_timeout(request: Request, timeout_ms: u32, r: Request)
    requires
        call_ensures(Request::timeout, (request, timeout_ms), r),
    ensures
        r@.timeout == timeout_ms,
        r@.url == request@.url,
        r@.method == request@.method,
        r@.headers == request@.headers,
        r@.body == request@.body,
        r@.with_credentials == request@.with_credentials,
{
}

/// Setting the credentials sets exactly that flag, and nothing else.
pub proof fn lemma_set_credentials(request: Request, with_credentials: bool, r: Request)
    requires
        call_ensures(Request::with_credentials, (request, with_credentials), r),
    ensures
        r@.with_credentials == with_credentials,
        r@.url == request@.url,
        r@.method == request@.method,
        r@.headers == request@.headers,
        r@.body == request@.body,
        r@.timeout == request@.timeout,
{
}

/// A request can be sent exactly where no text of it holds a NUL: not the URL, not the method, and
/// neither the name nor the value of any header.
pub proof fn lemma_sendable_request(
    request: Request,
    initial: emscripten_fetch_attr_t,
    sendable: bool,
)
    requires
        call_ensures(Request::is_sendable, (&request,), sendable),
    ensures
        sendable <==> {
            &&& !request@.url.contains('\0')
            &&& !request@.method.contains('\0')
            &&& forall|name: Seq<char>| #[trigger]
                request@.headers.contains_key(name) ==> !name.contains('\0')
                    && !request@.headers[name].contains('\0')
        },
        sendable ==> call_requires(Request::send_sync, (request, initial)),
{
}

/// The fetch gets the URL, the body, the time limit and the credentials of the request as they are,
/// and is synchronous, kept in memory and not answered from a cache.
pub proof fn lemma_fetch_of_request(
    request: Request,
    initial: emscripten_fetch_attr_t,
    r: FetchCall,
)
    requires
        call_ensures(Request::send_sync, (request, initial), r),
    ensures
        r.url@ == request@.url,
        request@.body is None ==> r.attr.request_data is None,
        request@.body matches Some(body) ==> (r.attr.request_data matches Some(data) && data@
            == body),
        r.attr.timeout_msecs == request@.timeout,
        r.attr.with_credentials == request@.with_credentials,
        r.attr.attributes == 1 + 16 + 64,
{
}

/// The bytes that were set as the body are the bytes that the fetch sends.
pub proof fn lemma_body_is_sent(
    request: Request,
    body: Vec<u8>,
    with_body: Request,
    initial: emscripten_fetch_attr_t,
    r: FetchCall,
)
    requires
        call_ensures(Request::body, (request, body), with_body),
        call_ensures(Request::send_sync, (with_body, initial), r),
    ensures
        r.attr.request_data matches Some(data) && data@ == body@,
{
}

/// The method field of the fetch starts with the bytes of the method, as many as leave room for a
/// NUL among 32 bytes; the NUL follows, and what stood behind is still there.
pub proof fn lemma_method_of_fetch(
    request: Request,
    initial: emscripten_fetch_attr_t,
    r: FetchCall,
)
    requires
        call_ensures(Request::send_sync, (request, initial), r),
    ensures
        ({
            let method = encode_utf8(request@.method);
            let kept: int = if method.len() <= 31 {
                method.len() as int
            } else {
                31
            };
            let field = r.attr.request_method@;
            &&& forall|i: int| 0 <= i < kept ==> #[trigger] field[i] == method[i]
            &&& field[kept] == 0
            &&& forall|i: int|
                kept < i < 32 ==> #[trigger] field[i] == initial.request_method@[i]
        }),
{
}

/// `write_method` writes as much of the method as leaves room for a NUL, then the NUL, and leaves
/// what stands behind.
pub proof fn lemma_write_method(request_method: &mut [u8; 32], method: &str, r: ())
    requires
        call_ensures(write_method, (request_method, method), r),
    ensures
        ({
            let bytes = encode_utf8(method@);
            let kept: int = if bytes.len() <= 31 {
                bytes.len() as int
            } else {
                31
            };
            let field = final(request_method)@;
            &&& forall|i: int| 0 <= i < kept ==> #[trigger] field[i] == bytes[i]
            &&& field[kept] == 0
            &&& forall|i: int|
                kept < i < 32 ==> #[trigger] field[i] == old(request_method)@[i]
        }),
{
}

/// The fetch sends one line for each header of the request and no other line: the name, a colon, a
/// space and the value.
pub proof fn lemma_headers_of_fetch(
    request: Request,
    initial: emscripten_fetch_attr_t,
    r: FetchCall,
) -> (names: Seq<Seq<char>>)
    requires
        call_ensures(Request::send_sync, (request, initial), r),
    ensures
        names.no_duplicates(),
        names.len() == r.attr.request_headers@.len(),
        forall|name: Seq<char>| #[trigger]
            names.contains(name) <==> request@.headers.contains_key(name),
        forall|i: int|
            0 <= i < names.len() ==> (#[trigger] r.attr.request_headers@[i])@ == names[i] + ": "@
                + request@.headers[names[i]],
{
    let order = choose|order: Seq<(Seq<char>, Seq<char>)>| #[trigger]
        lists(order, request@.headers) && texts(r.attr.request_headers@) == header_lines(order);
    lemma_lines_of_map(order, request@.headers, r.attr.request_headers@)
}

/// A header that was set is among the lines that the fetch sends.
pub proof fn lemma_header_is_sent(
    request: Request,
    name: &str,
    value: &str,
    with_header: Request,
    initial: emscripten_fetch_attr_t,
    r: FetchCall,
) -> (i: int)
    requires
        call_ensures(Request::header, (request, name, value), with_header),
        call_ensures(Request::send_sync, (with_header, initial), r),
    ensures
        0 <= i < r.attr.request_headers@.len(),
        r.attr.request_headers@[i]@ == name@ + ": "@ + value@,
{
    let names = lemma_headers_of_fetch(with_header, initial, r);
    assert(with_header@.headers.contains_key(name@));
    assert(names.contains(name@));
    choose|i: int| 0 <= i < names.len() && names[i] == name@
}

/// The lines of headers are one for each header: the name, a colon, a space and the value.
pub proof fn lemma_lines_of_headers(headers: HeaderMap, r: Vec<String>) -> (names: Seq<Seq<char>>)
    requires
        call_ensures(HeaderMap::lines, (&headers,), r),
    ensures
        names.no_duplicates(),
        names.len() == r@.len(),
        forall|name: Seq<char>| #[trigger]
            names.contains(name) <==> headers@.contains_key(name),
        forall|i: int|
            0 <= i < names.len() ==> (#[trigger] r@[i])@ == names[i] + ": "@ + headers@[names[i]],
{
    let order = choose|order: Seq<(Seq<char>, Seq<char>)>| #[trigger]
        lists(order, headers@) && texts(r@) == header_lines(order);
    lemma_lines_of_map(order, headers@, r@)
}

proof fn lemma_lines_of_map(
    order: Seq<(Seq<char>, Seq<char>)>,
    headers: Map<Seq<char>, Seq<char>>,
    lines: Seq<String>,
) -> (names: Seq<Seq<char>>)
    requires
        lists(order, headers),
        texts(lines) == header_lines(order),
    ensures
        names.no_duplicates(),
        names.len() == lines.len(),
        forall|name: Seq<char>| #[trigger] names.contains(name) <==> headers.contains_key(name),
        forall|i: int|
            0 <= i < names.len() ==> (#[trigger] lines[i])@ == names[i] + ": "@ + headers[names[i]],
{
    let names = order.map_values(|pair: (Seq<char>, Seq<char>)| pair.0);
    assert(texts(lines).len() == lines.len());
    assert forall|i: int| 0 <= i < names.len() implies (#[trigger] lines[i])@ == names[i] + ": "@
        + headers[names[i]] by {
        assert(texts(lines)[i] == header_lines(order)[i]);
        assert(headers.contains_pair(order[i].0, order[i].1));
        assert(header_lines(order)[i] == line(order[i].0, order[i].1));
    }
    assert forall|name: Seq<char>| #[trigger]
        names.contains(name) <==> headers.contains_key(name) by {
        if names.contains(name) {
            let i = choose|i: int| 0 <= i < names.len() && names[i] == name;
            assert(headers.contains_pair(order[i].0, order[i].1));
        }
        if headers.contains_key(name) {
            let i = choose|i: int| 0 <= i < order.len() && (#[trigger] order[i]).0 == name;
            assert(names[i] == name);
        }
    }
    assert forall|i: int, j: int| 0 <= i < j < names.len() implies names[i] != names[j] by {
        assert(order[i].0 != order[j].0);
    }
    names
}

/// A header that is set has that value, and every other header keeps its own.
pub proof fn lemma_header_map_with(headers: HeaderMap, name: String, value: String, r: HeaderMap)
    requires
        call_ensures(HeaderMap::with, (headers, name, value), r),
    ensures
        r@.contains_key(name@),
        r@[name@] == value@,
        forall|other: Seq<char>|
            other != name@ ==> {
                &&& #[trigger] r@.contains_key(other) <==> headers@.contains_key(other)
                &&& headers@.contains_key(other) ==> r@[other] == headers@[other]
            },
{
}

/// Headers are fit for C strings exactly where no name and no value holds a NUL.
pub proof fn lemma_header_map_is_nul_free(headers: HeaderMap, r: bool)
    requires
        call_ensures(HeaderMap::is_nul_free, (&headers,), r),
    ensures
        r <==> forall|name: Seq<char>| #[trigger]
            headers@.contains_key(name) ==> !name.contains('\0') && !headers@[name].contains('\0'),
{
}

/// A body reads as the text that it encodes, or, where it is ill-formed, as one with a replacement
/// character. Reading never fails.
pub proof fn lemma_text_of_response(response: FetchResponse, r: Result<Cow<'_, str>, Utf8Error>)
    requires
        call_ensures(FetchResponse::text, (&response,), r),
    ensures
        r matches Ok(text) && text@ == utf8_lossy(response.bytes@),
        valid_utf8(response.bytes@) ==> (r matches Ok(text) && text@ == decode_utf8(
            response.bytes@,
        )),
        !valid_utf8(response.bytes@) ==> (r matches Ok(text) && text@.contains('\u{FFFD}')),
{
}

/// A response has the status of the fetch, all bytes that it fetched, and the text before the first
/// NUL of its status text.
pub proof fn lemma_response_of_fetch(fetch: emscripten_fetch_t, n: int, r: FetchResponse)
    requires
        is_first_nul(fetch.status_text@, n),
        call_ensures(FetchResponse::from_raw, (fetch,), r),
    ensures
        call_requires(FetchResponse::from_raw, (fetch,)),
        r.status == fetch.status,
        fetch.data matches Some(bytes) ==> r.bytes@ == bytes@,
        fetch.data is None ==> r.bytes@.len() == 0,
        r.status_text@ == utf8_lossy(fetch.status_text@.take(n)),
        valid_utf8(fetch.status_text@.take(n)) ==> r.status_text@ == decode_utf8(
            fetch.status_text@.take(n),
        ),
{
    lemma_c_string_is_prefix(fetch.status_text@, n);
    assert(fetch.status_text@.contains(fetch.status_text@[n]));
}

/// A fetch succeeds exactly where it came back with a status from 200 to 299.
pub proof fn lemma_fetch_succeeds(
    fetched: Option<emscripten_fetch_t>,
    r: Result<FetchResponse, String>,
)
    requires
        call_ensures(fetch_result, (fetched,), r),
    ensures
        r is Ok <==> (fetched matches Some(fetch) && 200 <= fetch.status && fetch.status <= 299),
{
}

/// A fetch that succeeds gives its own status, all bytes that it fetched, and its status text.
pub proof fn lemma_success_of_fetch(
    fetch: emscripten_fetch_t,
    n: int,
    r: Result<FetchResponse, String>,
)
    requires
        is_first_nul(fetch.status_text@, n),
        200 <= fetch.status <= 299,
        call_ensures(fetch_result, (Some(fetch),), r),
    ensures
        call_requires(fetch_result, (Some(fetch),)),
        r matches Ok(response) && {
            &&& response.status == fetch.status
            &&& fetch.data matches Some(bytes) ==> response.bytes@ == bytes@
            &&& fetch.data is None ==> response.bytes@.len() == 0
            &&& response.status_text@ == utf8_lossy(fetch.status_text@.take(n))
            &&& valid_utf8(fetch.status_text@.take(n)) ==> response.status_text@ == decode_utf8(
                fetch.status_text@.take(n),
            )
        },
{
    lemma_c_string_is_prefix(fetch.status_text@, n);
    assert(fetch.status_text@.contains(fetch.status_text@[n]));
}

/// A fetch with any other status is answered with that status, as a number, and its status text.
pub proof fn lemma_failure_of_fetch(
    fetch: emscripten_fetch_t,
    n: int,
    r: Result<FetchResponse, String>,
)
    requires
        is_first_nul(fetch.status_text@, n),
        !(200 <= fetch.status <= 299),
        call_ensures(fetch_result, (Some(fetch),), r),
    ensures
        call_requires(fetch_result, (Some(fetch),)),
        r matches Err(message) && exists|digits: Seq<char>| #[trigger]
            is_numeral(digits, fetch.status as nat) && message@ == "HTTP error: "@ + digits + " - "@
                + utf8_lossy(fetch.status_text@.take(n)),
        valid_utf8(fetch.status_text@.take(n)) ==> utf8_lossy(fetch.status_text@.take(n))
            == decode_utf8(fetch.status_text@.take(n)),
{
    lemma_c_string_is_prefix(fetch.status_text@, n);
    assert(fetch.status_text@.contains(fetch.status_text@[n]));
    lemma_decimal(fetch.status as nat);
}

/// A fetch that did not start is answered with just that.
pub proof fn lemma_fetch_not_started(r: Result<FetchResponse, String>)
    requires
        call_ensures(fetch_result, (None::<emscripten_fetch_t>,), r),
    ensures
        call_requires(fetch_result, (None::<emscripten_fetch_t>,)),
        r matches Err(message) && message@ == "Failed to initiate fetch request"@,
{
}

/// An explanation of a status tells its number and its text.
pub proof fn lemma_explanation_of_status(status: u16, status_text: &str, r: String)
    requires
        call_ensures(http_error_message, (status, status_text), r),
    ensures
        exists|digits: Seq<char>| #[trigger]
            is_numeral(digits, status as nat) && r@ == "HTTP error: "@ + digits + " - "@
                + status_text@,
{
    lemma_decimal(status as nat);
}

} // verus!
