//! Messages, their errors, and what the callbacks queue.

use crate::laws::texts::{is_first_nul, is_numeral, lemma_c_string_is_prefix, lemma_decimal};
use crate::result::EmError;
use crate::text::utf8_lossy;
use crate::websocket::error::{CapacityError, Data, Error, ProtocolError, UrlError};
use crate::websocket::event::{
    on_close_ws, on_message_ws, on_open_ws, EmscriptenWebSocketCloseEvent,
    EmscriptenWebSocketMessageEvent, InternalQueue, ReadyState,
};
use crate::websocket::message::{content, CloseFrame, Message};
use bytes::Bytes;
use vstd::prelude::*;
use vstd::utf8::*;

verus! {

/// A close frame gives back what it was made from.
pub proof fn lemma_close_frame(
    clean: bool,
    code: u16,
    reason: String,
    frame: CloseFrame,
    was_clean: bool,
    its_code: u16,
    its_reason: String,
)
    requires
        call_ensures(CloseFrame::new, (clean, code, reason), frame),
        call_ensures(CloseFrame::was_clean, (&frame,), was_clean),
        call_ensures(CloseFrame::code, (&frame,), its_code),
        call_ensures(CloseFrame::reason, (&frame,), its_reason),
    ensures
        was_clean == clean,
        its_code == code,
        its_reason@ == reason@,
{
}

/// The three questions for the kind of a message single out its variant.
pub proof fn lemma_kind_of_message(message: Message, text: bool, binary: bool, close: bool)
    requires
        call_ensures(Message::is_text, (&message,), text),
        call_ensures(Message::is_binary, (&message,), binary),
        call_ensures(Message::is_close, (&message,), close),
    ensures
        match message {
            Message::Text(_) => text && !binary && !close,
            Message::Binary(_) => !text && binary && !close,
            Message::Close(_) => !text && !binary && close,
        },
{
}

/// A text becomes its UTF-8 encoding, bytes stay the same bytes, and a close becomes the encoding of
/// its reason, or nothing where it has none. The length is the number of these bytes, and a message
/// is empty where there are none.
pub proof fn lemma_data_of_message(
    message: Message,
    data: Bytes,
    converted: Bytes,
    length: usize,
    empty: bool,
)
    requires
        call_ensures(Message::into_data, (message,), data),
        call_ensures(<Bytes as From<Message>>::from, (message,), converted),
        call_ensures(Message::len, (&message,), length),
        call_ensures(Message::is_empty, (&message,), empty),
    ensures
        message matches Message::Text(text) ==> content(data) == encode_utf8(text@),
        message matches Message::Binary(bytes) ==> content(data) == content(bytes),
        message matches Message::Close(None) ==> content(data).len() == 0,
        message matches Message::Close(Some(frame)) ==> forall|reason: String| #[trigger]
            call_ensures(CloseFrame::reason, (&frame,), reason) ==> content(data) == encode_utf8(
                reason@,
            ),
        content(converted) == content(data),
        length == content(data).len(),
        empty <==> length == 0,
{
}

/// Text goes into a message and comes out of it unchanged.
pub proof fn lemma_text_round_trip(text: &str, message: Message, data: Bytes)
    requires
        call_ensures(<Message as From<&str>>::from, (text,), message),
        call_ensures(Message::into_data, (message,), data),
    ensures
        message is Text,
        valid_utf8(content(data)),
        decode_utf8(content(data)) == text@,
{
    encode_utf8_valid_utf8(text@);
    encode_utf8_decode_utf8(text@);
}

/// A `String` goes into a message and comes out of it unchanged.
pub proof fn lemma_string_round_trip(text: String, message: Message, data: Bytes)
    requires
        call_ensures(<Message as From<String>>::from, (text,), message),
        call_ensures(Message::into_data, (message,), data),
    ensures
        message == Message::Text(text),
        valid_utf8(content(data)),
        decode_utf8(content(data)) == text@,
{
    encode_utf8_valid_utf8(text@);
    encode_utf8_decode_utf8(text@);
}

/// Bytes go into a message and come out of it unchanged, from a vector and from a slice.
pub proof fn lemma_bytes_round_trip(
    vector: Vec<u8>,
    slice: &[u8],
    from_vector: Message,
    from_slice: Message,
    vector_data: Bytes,
    slice_data: Bytes,
)
    requires
        call_ensures(<Message as From<Vec<u8>>>::from, (vector,), from_vector),
        call_ensures(<Message as From<&[u8]>>::from, (slice,), from_slice),
        call_ensures(Message::into_data, (from_vector,), vector_data),
        call_ensures(Message::into_data, (from_slice,), slice_data),
    ensures
        from_vector is Binary,
        from_slice is Binary,
        content(vector_data) == vector@,
        content(slice_data) == slice@,
{
}

/// An opcode has its own name, and a reserved one is told by its number.
pub proof fn lemma_name_of_opcode(data: Data, r: String)
    requires
        call_ensures(Data::to_string, (&data,), r),
    ensures
        data is Continue ==> r@ == "CONTINUE"@,
        data is Text ==> r@ == "TEXT"@,
        data is Binary ==> r@ == "BINARY"@,
        data matches Data::Reserved(x) ==> exists|digits: Seq<char>|
            r@ == "RESERVED_DATA_"@ + digits && #[trigger] is_numeral(digits, x as nat),
{
    if let Data::Reserved(x) = data {
        lemma_decimal(x as nat);
    }
}

/// An error keeps its cause, under the variant of its kind.
pub proof fn lemma_error_keeps_cause(
    io: std::io::Error,
    capacity: CapacityError,
    protocol: ProtocolError,
    url: UrlError,
    runtime: EmError,
    r: (Error, Error, Error, Error, Error),
)
    requires
        call_ensures(<Error as From<std::io::Error>>::from, (io,), r.0),
        call_ensures(<Error as From<CapacityError>>::from, (capacity,), r.1),
        call_ensures(<Error as From<ProtocolError>>::from, (protocol,), r.2),
        call_ensures(<Error as From<UrlError>>::from, (url,), r.3),
        call_ensures(<Error as From<EmError>>::from, (runtime,), r.4),
    ensures
        r.0 == Error::Io(io),
        r.1 == Error::Capacity(capacity),
        r.2 == Error::Protocol(protocol),
        r.3 == Error::Url(url),
        r.4 == Error::Emscripten(runtime),
{
}

/// A message event that holds bytes is queued as one message with all of them: as the text that they
/// encode, or as they are.
pub proof fn lemma_message_event(
    event: EmscriptenWebSocketMessageEvent,
    bytes: Vec<u8>,
    r: Vec<InternalQueue>,
)
    requires
        event.data == Some(bytes),
        event.is_text ==> valid_utf8(bytes@),
        call_ensures(on_message_ws, (event,), r),
    ensures
        call_requires(on_message_ws, (event,)),
        r@.len() == 1,
        event.is_text ==> (r@[0] matches InternalQueue::Message(Ok(Message::Text(text))) && text@
            == decode_utf8(bytes@) && encode_utf8(text@) == bytes@),
        !event.is_text ==> (r@[0] matches InternalQueue::Message(Ok(Message::Binary(data)))
            && content(data) == bytes@),
{
    if event.is_text {
        decode_utf8_encode_utf8(bytes@);
    }
}

/// A message event without bytes is queued as one empty message.
pub proof fn lemma_empty_message_event(
    event: EmscriptenWebSocketMessageEvent,
    r: Vec<InternalQueue>,
)
    requires
        event.data is None,
        call_ensures(on_message_ws, (event,), r),
    ensures
        call_requires(on_message_ws, (event,)),
        r@.len() == 1,
        event.is_text ==> (r@[0] matches InternalQueue::Message(Ok(Message::Text(text)))
            && text@.len() == 0),
        !event.is_text ==> (r@[0] matches InternalQueue::Message(Ok(Message::Binary(data)))
            && content(data).len() == 0),
{
    let none = Seq::<u8>::empty();
    assert(encode_utf8(Seq::<char>::empty()) =~= none);
    encode_utf8_valid_utf8(Seq::<char>::empty());
    encode_utf8_decode_utf8(Seq::<char>::empty());
}

/// A close event is queued as the change of state, followed by a close message with its clean flag,
/// its code, and the reason that stands before the first NUL.
pub proof fn lemma_close_event(
    event: EmscriptenWebSocketCloseEvent,
    n: int,
    r: Vec<InternalQueue>,
    frame: CloseFrame,
    clean: bool,
    code: u16,
    reason: String,
)
    requires
        is_first_nul(event.reason@, n),
        call_ensures(on_close_ws, (Some(event),), r),
        r@.len() == 2 ==> r@[1] == InternalQueue::Message(Ok(Message::Close(Some(frame)))),
        call_ensures(CloseFrame::was_clean, (&frame,), clean),
        call_ensures(CloseFrame::code, (&frame,), code),
        call_ensures(CloseFrame::reason, (&frame,), reason),
    ensures
        call_requires(on_close_ws, (Some(event),)),
        r@.len() == 2,
        r@[0] == InternalQueue::StateChange(ReadyState::Closed),
        clean == event.was_clean,
        code == event.code,
        reason@ == utf8_lossy(event.reason@.take(n)),
        valid_utf8(event.reason@.take(n)) ==> reason@ == decode_utf8(event.reason@.take(n)),
        !valid_utf8(event.reason@.take(n)) ==> reason@.contains('\u{FFFD}'),
{
    lemma_c_string_is_prefix(event.reason@, n);
    assert(event.reason@.contains(event.reason@[n]));
}

/// A close always ends in exactly two entries: the change of state and a close message with a frame.
pub proof fn lemma_close_is_queued(
    event: Option<EmscriptenWebSocketCloseEvent>,
    r: Vec<InternalQueue>,
)
    requires
        call_ensures(on_close_ws, (event,), r),
    ensures
        r@.len() == 2,
        r@[0] == InternalQueue::StateChange(ReadyState::Closed),
        r@[1] matches InternalQueue::Message(Ok(Message::Close(Some(_)))),
{
}

/// A connection that was lost without an event counts as closed uncleanly, with code 1006 and no
/// reason.
pub proof fn lemma_lost_connection(
    r: Vec<InternalQueue>,
    frame: CloseFrame,
    clean: bool,
    code: u16,
    reason: String,
)
    requires
        call_ensures(on_close_ws, (None::<EmscriptenWebSocketCloseEvent>,), r),
        r@.len() == 2 ==> r@[1] == InternalQueue::Message(Ok(Message::Close(Some(frame)))),
        call_ensures(CloseFrame::was_clean, (&frame,), clean),
        call_ensures(CloseFrame::code, (&frame,), code),
        call_ensures(CloseFrame::reason, (&frame,), reason),
    ensures
        call_requires(on_close_ws, (None::<EmscriptenWebSocketCloseEvent>,)),
        r@.len() == 2,
        r@[0] == InternalQueue::StateChange(ReadyState::Closed),
        !clean,
        code == 1006,
        reason@.len() == 0,
{
}

/// An open event is queued as the one change of state to open.
pub proof fn lemma_open_event(r: Vec<InternalQueue>)
    requires
        call_ensures(on_open_ws, (), r),
    ensures
        r@.len() == 1,
        r@[0] == InternalQueue::StateChange(ReadyState::Open),
{
}

} // verus!
