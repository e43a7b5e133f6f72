//! The life of a socket: opened, polled, written to, closed and released.

use crate::laws::texts::{is_first_nul, lemma_c_string_is_prefix};
use crate::result::EmError;
use crate::text::{join, lemma_c_string_round_trip, lemma_without_nul, without_nul};
use crate::websocket::error::Error;
use crate::websocket::event::{
    on_message_ws, EmscriptenWebSocketMessageEvent, InternalQueue, ReadyState,
};
use crate::websocket::message::{content, CloseFrame, Message};
use crate::websocket::record::Look;
use crate::websocket::stream::{
    connect_with_protocols, set_callback_hooks, EmscriptenWebSocketCreateAttributes, QueuePoll,
    SinkPoll, SocketCall, SocketEvent, StreamPoll, WebSocketStream,
};
use bytes::Bytes;
use futures_channel::mpsc::UnboundedReceiver;
use std::task::Context;
use vstd::prelude::*;
use vstd::utf8::*;

verus! {

/// The messages that looks at a queue found, in order.
pub open spec fn messages(answers: Seq<Look>) -> Seq<Result<Message, Error>>
    decreases answers.len(),
{
    if answers.len() == 0 {
        seq![]
    } else {
        match answers.last().found {
            QueuePoll::Entry(InternalQueue::Message(item)) => messages(answers.drop_last()).push(
                item,
            ),
            _ => messages(answers.drop_last()),
        }
    }
}

/// Anything without NULs can be connected to. The socket asks for the URL as it is and belongs to the
/// main thread; it asks for protocols exactly where some are given, and for these joined by commas.
pub proof fn lemma_connect(
    url: &str,
    protocols: &[&str],
    r: EmscriptenWebSocketCreateAttributes,
    list: String,
)
    requires
        !url@.contains('\0'),
        forall|i: int| 0 <= i < protocols@.len() ==> !(#[trigger] protocols@[i])@.contains('\0'),
        call_ensures(connect_with_protocols, (url, protocols), r),
        call_ensures(join, (protocols, ","), list),
    ensures
        call_requires(connect_with_protocols, (url, protocols)),
        r.url@ == url@,
        r.create_on_main_thread,
        r.protocols is None <==> protocols@.len() == 0,
        r.protocols matches Some(text) ==> text@ == list@ && !text@.contains('\0'),
{
}

/// Hooking up a socket registers its close, message and open callbacks, on the calling thread.
pub proof fn lemma_hooks(handle_id: i32, r: Vec<SocketCall>)
    requires
        call_ensures(set_callback_hooks, (handle_id,), r),
    ensures
        r@.len() == 3,
        r@[0] == (SocketCall::SetCallback {
            socket: handle_id,
            event: SocketEvent::Close,
            registered: true,
            target_thread: 2,
        }),
        r@[1] == (SocketCall::SetCallback {
            socket: handle_id,
            event: SocketEvent::Message,
            registered: true,
            target_thread: 2,
        }),
        r@[2] == (SocketCall::SetCallback {
            socket: handle_id,
            event: SocketEvent::Open,
            registered: true,
            target_thread: 2,
        }),
{
}

/// Releasing a socket takes every callback away that hooking it up registered, in the same order, and
/// deletes the socket after that.
pub proof fn lemma_release(
    stream: WebSocketStream,
    hooks: Vec<SocketCall>,
    r: Vec<SocketCall>,
    handle: i32,
)
    requires
        call_ensures(WebSocketStream::socket_handle, (&stream,), handle),
        call_ensures(set_callback_hooks, (handle,), hooks),
        call_ensures(WebSocketStream::release, (&stream,), r),
    ensures
        r@.len() == hooks@.len() + 1,
        r@.last() == (SocketCall::Delete { socket: handle }),
        forall|i: int|
            0 <= i < hooks@.len() ==> (#[trigger] hooks@[i] matches SocketCall::SetCallback {
                socket,
                event,
                registered,
                target_thread,
            } && registered && r@[i] == (SocketCall::SetCallback {
                socket,
                event,
                registered: false,
                target_thread,
            })),
{
}

/// A positive code makes a stream with that handle, connecting, on that queue, of which it has seen
/// nothing, and hooks it up. Any other code makes an error: the one that `EmError` names, or else
/// the code itself.
pub proof fn lemma_created(
    code: i32,
    queue: UnboundedReceiver<InternalQueue>,
    r: Result<(WebSocketStream, Vec<SocketCall>), Error>,
    hooks: Vec<SocketCall>,
    named: Result<EmError, ()>,
)
    requires
        call_ensures(WebSocketStream::created, (code, queue), r),
        call_ensures(set_callback_hooks, (code,), hooks),
        call_ensures(<EmError as TryFrom<i32>>::try_from, (code,), named),
    ensures
        call_requires(WebSocketStream::created, (code, queue)),
        r is Ok <==> code > 0,
        r matches Ok((stream, calls)) ==> {
            &&& stream.receiver() == queue
            &&& stream.answers().len() == 0
            &&& calls@ == hooks@
            &&& forall|handle: i32| #[trigger]
                call_ensures(WebSocketStream::socket_handle, (&stream,), handle) ==> handle == code
            &&& forall|state: ReadyState| #[trigger]
                call_ensures(WebSocketStream::ready_state, (&stream,), state)
                    ==> state is Connecting
        },
        code <= 0 ==> (named matches Ok(error) ==> r == Err::<
            (WebSocketStream, Vec<SocketCall>),
            Error,
        >(Error::Emscripten(error))),
        code <= 0 ==> (named is Err ==> r == Err::<(WebSocketStream, Vec<SocketCall>), Error>(
            Error::Emscripten(EmError::UnknownCode(code)),
        )),
{
}

/// The state and the handle of a stream are those that its accessors tell.
pub proof fn lemma_accessors(stream: WebSocketStream, state: ReadyState, handle: i32)
    requires
        call_ensures(WebSocketStream::ready_state, (&stream,), state),
        call_ensures(WebSocketStream::socket_handle, (&stream,), handle),
    ensures
        state == stream.state(),
        handle == stream.handle(),
{
}

/// A poll for the next message looks at the queue exactly once, so that the task is woken when an
/// entry comes, and loses nothing of what the queue answered: a message is the item that comes out, a change of state becomes the state, the end of
/// the queue is the end of the stream. Only where there is nothing does the state decide: a closed
/// socket ends the stream, any other waits.
pub proof fn lemma_poll_next(stream: &mut WebSocketStream, cx: &mut Context<'_>, r: StreamPoll)
    requires
        call_ensures(WebSocketStream::poll_next, (stream, cx), r),
    ensures
        final(stream).answers().len() == old(stream).answers().len() + 1,
        final(stream).answers().drop_last() == old(stream).answers(),
        final(stream).handle() == old(stream).handle(),
        final(stream).answers().last().wakes,
        match final(stream).answers().last().found {
            QueuePoll::Entry(InternalQueue::Message(item)) => r == StreamPoll::Item(item)
                && final(stream).state() == old(stream).state(),
            QueuePoll::Entry(InternalQueue::StateChange(next)) => r is Again
                && final(stream).state() == next,
            QueuePoll::Closed => r is End && final(stream).state() == old(stream).state(),
            QueuePoll::Empty => final(stream).state() == old(stream).state() && (if old(stream).state() is Closed {
                r is End
            } else {
                r is Pending
            }),
        },
{
    let last = final(stream).answers().last();
    assert(old(stream).answers().push(last).drop_last() =~= old(stream).answers());
}

/// The items that polls give out are the messages that were taken from the queue: each once, in
/// order and unchanged.
pub proof fn lemma_items_are_messages(
    stream: &mut WebSocketStream,
    cx: &mut Context<'_>,
    r: StreamPoll,
)
    requires
        call_ensures(WebSocketStream::poll_next, (stream, cx), r),
    ensures
        messages(final(stream).answers()) == (match r {
            StreamPoll::Item(item) => messages(old(stream).answers()).push(item),
            _ => messages(old(stream).answers()),
        }),
{
    lemma_poll_next(stream, cx, r);
}

/// What a poll makes of an answer of the queue that it is handed; the record stays as it is.
pub proof fn lemma_on_queue_polled(
    stream: &mut WebSocketStream,
    polled: QueuePoll,
    r: StreamPoll,
)
    requires
        call_ensures(WebSocketStream::on_queue_polled, (stream, polled), r),
    ensures
        final(stream).answers() == old(stream).answers(),
        final(stream).handle() == old(stream).handle(),
        match polled {
            QueuePoll::Entry(InternalQueue::Message(item)) => r == StreamPoll::Item(item)
                && final(stream).state() == old(stream).state(),
            QueuePoll::Entry(InternalQueue::StateChange(next)) => r is Again
                && final(stream).state() == next,
            QueuePoll::Closed => r is End && final(stream).state() == old(stream).state(),
            QueuePoll::Empty => final(stream).state() == old(stream).state() && (if old(stream).state() is Closed {
                r is End
            } else {
                r is Pending
            }),
        },
{
}

/// A poll for readiness of a connecting socket takes exactly one answer from the queue, and is ready
/// exactly where that is the change to open; a change of state becomes the state. Any other socket
/// leaves the queue alone and keeps its state: an open one is ready, and one that is closing or
/// closed is refused.
pub proof fn lemma_poll_ready(stream: &mut WebSocketStream, r: SinkPoll)
    requires
        call_ensures(WebSocketStream::poll_ready, (stream,), r),
    ensures
        final(stream).handle() == old(stream).handle(),
        match old(stream).state() {
            ReadyState::Connecting => {
                let taken = final(stream).answers().last().found;
                &&& !final(stream).answers().last().wakes
                &&& final(stream).answers().len() == old(stream).answers().len() + 1
                &&& final(stream).answers().drop_last() == old(stream).answers()
                &&& match taken {
                    QueuePoll::Entry(InternalQueue::StateChange(next)) => final(stream).state()
                        == next,
                    _ => final(stream).state() is Connecting,
                }
                &&& if taken == QueuePoll::Entry(InternalQueue::StateChange(ReadyState::Open)) {
                    r == SinkPoll::Ready(Ok(()))
                } else {
                    r is Pending
                }
            },
            ReadyState::Open => {
                &&& r == SinkPoll::Ready(Ok(()))
                &&& final(stream).state() is Open
                &&& final(stream).answers() == old(stream).answers()
                &&& final(stream).receiver() == old(stream).receiver()
            },
            _ => {
                &&& r == SinkPoll::Ready(Err(Error::ConnectionClosed))
                &&& final(stream).state() == old(stream).state()
                &&& final(stream).answers() == old(stream).answers()
                &&& final(stream).receiver() == old(stream).receiver()
            },
        },
{
    if old(stream).state() is Connecting {
        let taken = final(stream).answers().last();
        assert(old(stream).answers().push(taken).drop_last() =~= old(stream).answers());
    }
}

/// What a poll for readiness makes of an answer of the queue that it is handed; the record stays as
/// it is.
pub proof fn lemma_on_queue_taken(stream: &mut WebSocketStream, taken: QueuePoll, r: SinkPoll)
    requires
        call_ensures(WebSocketStream::on_queue_taken, (stream, taken), r),
    ensures
        final(stream).handle() == old(stream).handle(),
        final(stream).answers() == old(stream).answers(),
        old(stream).state() is Connecting ==> {
            &&& match taken {
                QueuePoll::Entry(InternalQueue::StateChange(next)) => final(stream).state()
                    == next,
                _ => final(stream).state() is Connecting,
            }
            &&& if taken == QueuePoll::Entry(InternalQueue::StateChange(ReadyState::Open)) {
                r == SinkPoll::Ready(Ok(()))
            } else {
                r is Pending
            }
        },
        !(old(stream).state() is Connecting) ==> final(stream).state() == old(stream).state(),
        old(stream).state() is Open ==> r == SinkPoll::Ready(Ok(())),
        old(stream).state() is Closing || old(stream).state() is Closed ==> r == SinkPoll::Ready(
            Err(Error::ConnectionClosed),
        ),
{
}

/// Bytes are handed over as they are, with their number modulo 2^32.
pub proof fn lemma_send_binary(stream: WebSocketStream, bytes: Bytes, r: SocketCall)
    requires
        call_ensures(WebSocketStream::send_binary, (&stream, bytes), r),
    ensures
        r matches SocketCall::SendBinary { socket, data, data_length } && socket == stream.handle()
            && content(data) == content(bytes) && data_length == content(bytes).len()
            % 0x1_0000_0000,
{
}

/// A text is handed over without its NULs, and otherwise as it is.
pub proof fn lemma_send_text(stream: WebSocketStream, message: String, r: SocketCall)
    requires
        call_ensures(WebSocketStream::send_text, (&stream, message), r),
    ensures
        r matches SocketCall::SendUtf8Text { socket, text } && socket == stream.handle() && text@
            == message@.filter(|c: char| c != '\0') && !text@.contains('\0'),
{
    lemma_without_nul(message@);
}

/// A close with a reason hands over the code and the reason as they are, and the socket is closing
/// from then on.
pub proof fn lemma_close_with_reason(
    stream: &mut WebSocketStream,
    code: u16,
    reason: String,
    r: SocketCall,
)
    requires
        call_ensures(WebSocketStream::close_with_reason, (stream, code, reason), r),
    ensures
        r matches SocketCall::Close { socket, code: c, reason: text } && socket == old(stream).handle() && c == code && text@ == reason@,
        final(stream).state() is Closing,
        final(stream).handle() == old(stream).handle(),
        final(stream).answers() == old(stream).answers(),
        final(stream).receiver() == old(stream).receiver(),
{
}

/// A message can be handed to a socket that is not open whatever it is, and to an open one unless it
/// is a close whose reason holds a NUL; and a close can be asked for with every other reason.
pub proof fn lemma_what_can_be_sent(
    stream: &mut WebSocketStream,
    item: Message,
    code: u16,
    reason: String,
)
    requires
        !reason@.contains('\0'),
    ensures
        !(old(stream).state() is Open) ==> call_requires(
            WebSocketStream::start_send,
            (stream, item),
        ),
        item is Text || item is Binary || item == Message::Close(None) ==> call_requires(
            WebSocketStream::start_send,
            (stream, item),
        ),
        item matches Message::Close(Some(frame)) ==> (call_ensures(
            CloseFrame::reason,
            (&frame,),
            reason,
        ) ==> call_requires(WebSocketStream::start_send, (stream, item))),
        call_requires(WebSocketStream::close_with_reason, (stream, code, reason)),
{
}

/// A close without a reason hands over code 1000 and an empty reason, and the socket is closing from
/// then on.
pub proof fn lemma_close(stream: &mut WebSocketStream, r: SocketCall)
    requires
        call_ensures(WebSocketStream::close, (stream,), r),
    ensures
        r matches SocketCall::Close { socket, code, reason } && socket == old(stream).handle()
            && code == 1000 && reason@.len() == 0,
        final(stream).state() is Closing,
        final(stream).handle() == old(stream).handle(),
        final(stream).answers() == old(stream).answers(),
        final(stream).receiver() == old(stream).receiver(),
{
}

/// A message is sent exactly where the socket is open, and is refused everywhere else. What is handed
/// over holds all of the message but the NULs of a text, and only a close message changes the state.
pub proof fn lemma_start_send(
    stream: &mut WebSocketStream,
    item: Message,
    r: Result<SocketCall, Error>,
)
    requires
        call_ensures(WebSocketStream::start_send, (stream, item), r),
    ensures
        r is Ok <==> old(stream).state() is Open,
        r is Err ==> r == Err::<SocketCall, Error>(Error::ConnectionClosed) && final(stream).state() == old(stream).state(),
        r matches Ok(call) ==> match item {
            Message::Text(message) => call matches SocketCall::SendUtf8Text { socket, text }
                && socket == old(stream).handle() && text@ == message@.filter(|c: char| c != '\0')
                && final(stream).state() is Open,
            Message::Binary(bytes) => call matches SocketCall::SendBinary {
                socket,
                data,
                data_length,
            } && socket == old(stream).handle() && content(data) == content(bytes) && data_length
                == content(bytes).len() % 0x1_0000_0000 && final(stream).state() is Open,
            Message::Close(None) => call matches SocketCall::Close { socket, code, reason }
                && socket == old(stream).handle() && code == 1000 && reason@.len() == 0 && final(stream).state() is Closing,
            Message::Close(Some(frame)) => call is Close && final(stream).state() is Closing,
        },
        final(stream).handle() == old(stream).handle(),
        final(stream).answers() == old(stream).answers(),
        final(stream).receiver() == old(stream).receiver(),
{
}

/// A close message hands over the code and the reason of its frame, and the socket is closing from
/// then on.
pub proof fn lemma_send_close_frame(
    stream: &mut WebSocketStream,
    frame: CloseFrame,
    code: u16,
    reason: String,
    r: Result<SocketCall, Error>,
)
    requires
        old(stream).state() is Open,
        call_ensures(CloseFrame::code, (&frame,), code),
        call_ensures(CloseFrame::reason, (&frame,), reason),
        call_ensures(WebSocketStream::start_send, (stream, Message::Close(Some(frame))), r),
    ensures
        r matches Ok(SocketCall::Close { socket, code: c, reason: text }) && socket == old(stream).handle() && c == code && text@ == reason@,
        final(stream).state() is Closing,
{
}

/// A text that comes back byte by byte is queued as the text that was sent, without its NULs: the
/// message event holds what stands before the first NUL of the memory that was handed over.
pub proof fn lemma_sent_text_is_received(
    stream: WebSocketStream,
    message: String,
    call: SocketCall,
    text: String,
    socket: i32,
    memory: Seq<u8>,
    behind: Seq<u8>,
    n: int,
    event: EmscriptenWebSocketMessageEvent,
    bytes: Vec<u8>,
    r: Vec<InternalQueue>,
)
    requires
        call_ensures(WebSocketStream::send_text, (&stream, message), call),
        call == (SocketCall::SendUtf8Text { socket, text }),
        memory == encode_utf8(text@).push(0) + behind,
        is_first_nul(memory, n),
        event.is_text,
        event.data == Some(bytes),
        bytes@ == memory.take(n),
        call_ensures(on_message_ws, (event,), r),
    ensures
        r@.len() == 1,
        r@[0] matches InternalQueue::Message(Ok(Message::Text(back))) && back@ == message@.filter(
            |c: char| c != '\0',
        ),
{
    lemma_without_nul(message@);
    lemma_c_string_round_trip(without_nul(message@), behind);
    lemma_c_string_is_prefix(memory, n);
    encode_utf8_valid_utf8(without_nul(message@));
    encode_utf8_decode_utf8(without_nul(message@));
}

/// Bytes that come back are queued as the bytes that were sent, as long as their number fits into 32
/// bits.
pub proof fn lemma_sent_bytes_are_received(
    stream: WebSocketStream,
    sent: Bytes,
    socket: i32,
    data: Bytes,
    data_length: u32,
    event: EmscriptenWebSocketMessageEvent,
    bytes: Vec<u8>,
    r: Vec<InternalQueue>,
)
    requires
        content(sent).len() <= u32::MAX,
        call_ensures(
            WebSocketStream::send_binary,
            (&stream, sent),
            SocketCall::SendBinary { socket, data, data_length },
        ),
        !event.is_text,
        event.data == Some(bytes),
        bytes@ == content(data).take(data_length as int),
        call_ensures(on_message_ws, (event,), r),
    ensures
        r@.len() == 1,
        r@[0] matches InternalQueue::Message(Ok(Message::Binary(back))) && content(back) == content(
            sent,
        ),
{
    assert(content(sent).take(content(sent).len() as int) =~= content(sent));
}

} // verus!
