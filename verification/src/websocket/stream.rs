//! The stream of a WebSocket: how it is opened, polled, written to, closed and released.
//!
//! Nothing here calls the runtime. What has to be called comes out as a [`SocketCall`], and what
//! the runtime answered goes in as a number.

use crate::result::{is_named_error_code, named_error, EmError};
use crate::text::{
    c_string, join, joined, lemma_c_string_round_trip, lemma_joined_nul_free, lemma_without_nul,
    nul_free, remove_nul, views, without_nul,
};
use crate::websocket::error::Error;
use crate::websocket::event::{
    reports_close, EmscriptenWebSocketCloseEvent, EmscriptenWebSocketMessageEvent, InternalQueue,
    ReadyState,
};
use crate::websocket::message::{content, CloseFrame, Message};
use crate::websocket::record::{Answers, Look};
use bytes::Bytes;
use futures::StreamExt;
use futures_channel::mpsc::UnboundedReceiver;
use std::task::{Context, Poll};
use vstd::prelude::*;
use vstd::string::*;
use vstd::utf8::*;

verus! {

/// `futures_channel::mpsc::UnboundedReceiver`. What it holds is no function of the value: other
/// tasks add to it at any time.
#[verifier::external_type_specification]
#[verifier::external_body]
#[verifier::reject_recursive_types(T)]
pub struct ExUnboundedReceiver<T>(futures_channel::mpsc::UnboundedReceiver<T>);

/// `std::task::Context`, handed on to the queue.
#[verifier::external_type_specification]
#[verifier::external_body]
pub struct ExContext<'a>(std::task::Context<'a>);

/// The close code of a connection that has done its work.
pub const NORMAL_CLOSURE: u16 = 1000;

/// `EM_CALLBACK_THREAD_CONTEXT_CALLING_THREAD`: callbacks run on the thread that registers them.
pub const CALLING_THREAD: usize = 2;

/// What a socket is created from.
#[derive(Debug)]
pub struct EmscriptenWebSocketCreateAttributes {
    /// The URL, fit for a C string.
    pub url: String,
    /// The protocols, separated by commas and fit for a C string; nothing where none is asked for.
    pub protocols: Option<String>,
    /// Whether the socket belongs to the main thread.
    pub create_on_main_thread: bool,
}

/// What a callback can be registered for.
#[derive(Clone, Debug, Copy, PartialEq, Eq, Structural)]
pub enum SocketEvent {
    Close,
    Message,
    Open,
}

/// A call into the runtime.
#[derive(Debug)]
pub enum SocketCall {
    /// `emscripten_websocket_send_binary`
    SendBinary { socket: i32, data: Bytes, data_length: u32 },
    /// `emscripten_websocket_send_utf8_text`, with a text that is fit for a C string
    SendUtf8Text { socket: i32, text: String },
    /// `emscripten_websocket_close`, with a reason that is fit for a C string
    Close { socket: i32, code: u16, reason: String },
    /// `emscripten_websocket_set_on.._callback_on_thread`: registers the callback of the event, or
    /// takes it away
    SetCallback { socket: i32, event: SocketEvent, registered: bool, target_thread: usize },
    /// `emscripten_websocket_delete`
    Delete { socket: i32 },
}

/// What a look at the queue found.
#[derive(Debug)]
pub enum QueuePoll {
    /// The next entry, which is no longer in the queue.
    Entry(InternalQueue),
    /// Nothing, and nothing will come.
    Closed,
    /// Nothing for now.
    Empty,
}

/// What a poll for the next message comes to.
#[derive(Debug)]
pub enum StreamPoll {
    /// The next item of the stream.
    Item(Result<Message, Error>),
    /// The end of the stream.
    End,
    /// Nothing yet: wake the task at once, so that it polls again.
    Again,
    /// Nothing yet: the task is woken when the queue gets an entry.
    Pending,
}

/// What a poll for readiness to send comes to.
#[derive(Debug)]
pub enum SinkPoll {
    /// A message can be sent, or no message can be sent any more.
    Ready(Result<(), Error>),
    /// Not yet.
    Pending,
}

/// A WebSocket and what its callbacks have queued.
pub struct WebSocketStream {
    socket_handle: i32,
    ready_state: ReadyState,
    pub queue: UnboundedReceiver<InternalQueue>,
    answers: Answers,
}

/// The registration of the callback of `event` on `socket`.
pub open spec fn callback_call(socket: i32, event: SocketEvent, registered: bool) -> SocketCall {
    SocketCall::SetCallback { socket, event, registered, target_thread: CALLING_THREAD }
}

/// The calls that hook up a new socket.
pub open spec fn hook_calls(socket: i32) -> Seq<SocketCall> {
    seq![
        callback_call(socket, SocketEvent::Close, true),
        callback_call(socket, SocketEvent::Message, true),
        callback_call(socket, SocketEvent::Open, true),
    ]
}

/// The calls that release a socket.
pub open spec fn release_calls(socket: i32) -> Seq<SocketCall> {
    seq![
        callback_call(socket, SocketEvent::Close, false),
        callback_call(socket, SocketEvent::Message, false),
        callback_call(socket, SocketEvent::Open, false),
        SocketCall::Delete { socket },
    ]
}

/// Why no socket was created, where `code` is no handle. Zero and the codes without a name say no
/// more than that the creation failed.
pub open spec fn creation_error(code: i32) -> EmError {
    if is_named_error_code(code) {
        named_error(code)
    } else {
        EmError::UnknownCode(code)
    }
}

/// One poll of the stream: the state that it leaves and what it comes to.
pub open spec fn stream_step(state: ReadyState, polled: QueuePoll) -> (ReadyState, StreamPoll) {
    match polled {
        QueuePoll::Entry(InternalQueue::StateChange(next)) => (next, StreamPoll::Again),
        QueuePoll::Entry(InternalQueue::Message(item)) => (state, StreamPoll::Item(item)),
        QueuePoll::Closed => (state, StreamPoll::End),
        QueuePoll::Empty => if state is Closed {
            (state, StreamPoll::End)
        } else {
            (state, StreamPoll::Pending)
        },
    }
}

/// One poll for readiness to send: the state that it leaves and what it comes to. Only a socket
/// that is connecting looks at the queue.
pub open spec fn sink_step(state: ReadyState, taken: QueuePoll) -> (ReadyState, SinkPoll) {
    match state {
        ReadyState::Open => (state, SinkPoll::Ready(Ok(()))),
        ReadyState::Connecting => match taken {
            QueuePoll::Entry(InternalQueue::StateChange(next)) => if next is Open {
                (next, SinkPoll::Ready(Ok(())))
            } else {
                (next, SinkPoll::Pending)
            },
            _ => (state, SinkPoll::Pending),
        },
        _ => (state, SinkPoll::Ready(Err(Error::ConnectionClosed))),
    }
}

/// `call` sends `item` on `socket`. NULs do not go into a text; a close message closes the socket.
pub open spec fn sends(socket: i32, item: Message, call: SocketCall) -> bool {
    match item {
        Message::Text(message) => call matches SocketCall::SendUtf8Text { socket: s, text } && s
            == socket && text@ == without_nul(message@),
        Message::Binary(bytes) => call matches SocketCall::SendBinary {
            socket: s,
            data,
            data_length,
        } && s == socket && data == bytes && data_length == content(bytes).len() % 0x1_0000_0000,
        Message::Close(Some(frame)) => call matches SocketCall::Close { socket: s, code, reason }
            && s == socket && code == frame@.code && reason@ == frame@.reason,
        Message::Close(None) => call matches SocketCall::Close { socket: s, code, reason } && s
            == socket && code == NORMAL_CLOSURE && reason@ == Seq::<char>::empty(),
    }
}

/// The text that a call hands over as a C string has no NUL in it.
pub open spec fn fits_c_string(call: SocketCall) -> bool {
    match call {
        SocketCall::SendUtf8Text { text, .. } => nul_free(text@),
        SocketCall::Close { reason, .. } => nul_free(reason@),
        _ => true,
    }
}

/// A close reason has to be fit for a C string.
pub open spec fn is_sendable(item: Message) -> bool {
    item matches Message::Close(Some(frame)) ==> nul_free(frame@.reason)
}

/// Polls the queue with `Stream::poll_next` of `futures_channel::mpsc::UnboundedReceiver`, and tells
/// its three outcomes apart. Which of them comes, and which entry, depends on the other tasks. The
/// look is the next one on the record of the stream, as one that has the task woken; nothing but the
/// queue and its record changes.
#[verifier::external_body]
fn poll_queue(stream: &mut WebSocketStream, cx: &mut Context<'_>) -> (r: QueuePoll)
    ensures
        final(stream).answers@ == old(stream).answers@.push(Look { wakes: true, found: r }),
        final(stream).ready_state == old(stream).ready_state,
        final(stream).socket_handle == old(stream).socket_handle,
{
    match stream.queue.poll_next_unpin(cx) {
        Poll::Ready(Some(entry)) => QueuePoll::Entry(entry),
        Poll::Ready(None) => QueuePoll::Closed,
        Poll::Pending => QueuePoll::Empty,
    }
}

/// Takes from the queue with `UnboundedReceiver::try_next`, and tells its three outcomes apart.
/// Which of them comes, and which entry, depends on the other tasks. The look is the next one on the
/// record of the stream, as one that has nobody woken; nothing but the queue and its record changes.
#[allow(deprecated)]
#[verifier::external_body]
fn take_from_queue(stream: &mut WebSocketStream) -> (r: QueuePoll)
    ensures
        final(stream).answers@ == old(stream).answers@.push(Look { wakes: false, found: r }),
        final(stream).ready_state == old(stream).ready_state,
        final(stream).socket_handle == old(stream).socket_handle,
{
    match stream.queue.try_next() {
        Ok(Some(entry)) => QueuePoll::Entry(entry),
        Ok(None) => QueuePoll::Closed,
        Err(_) => QueuePoll::Empty,
    }
}

/// The attributes of a socket that connects to `url` and asks for `protocols`.
pub fn connect_with_protocols(url: &str, protocols: &[&str]) -> (r:
    EmscriptenWebSocketCreateAttributes)
    requires
        nul_free(url@),
        forall|i: int| 0 <= i < protocols@.len() ==> nul_free(#[trigger] protocols@[i]@),
    ensures
        r.url@ == url@,
        protocols@.len() == 0 ==> r.protocols is None,
        protocols@.len() > 0 ==> (r.protocols matches Some(text) && text@ == joined(
            views(protocols@),
            ","@,
        )),
        r.protocols matches Some(text) ==> nul_free(text@),
        r.create_on_main_thread,
{
    proof {
        reveal_strlit(",");
        lemma_joined_nul_free(views(protocols@), ","@);
    }
    let protocols = if !protocols.is_empty() {
        Some(join(protocols, ","))
    } else {
        None
    };
    EmscriptenWebSocketCreateAttributes {
        url: url.to_owned(),
        protocols,
        create_on_main_thread: true,
    }
}

/// The calls that hook up a new socket.
pub fn set_callback_hooks(handle_id: i32) -> (r: Vec<SocketCall>)
    ensures
        r@ == hook_calls(handle_id),
{
    let mut calls: Vec<SocketCall> = Vec::new();
    calls.push(set_callback(handle_id, SocketEvent::Close, true));
    calls.push(set_callback(handle_id, SocketEvent::Message, true));
    calls.push(set_callback(handle_id, SocketEvent::Open, true));
    calls
}

fn set_callback(socket: i32, event: SocketEvent, registered: bool) -> (r: SocketCall)
    ensures
        r == callback_call(socket, event, registered),
{
    SocketCall::SetCallback { socket, event, registered, target_thread: CALLING_THREAD }
}

impl WebSocketStream {
    /// The handle by which the runtime knows the socket.
    pub closed spec fn handle(self) -> i32 {
        self.socket_handle
    }

    /// What the stream knows of the state of the socket.
    pub closed spec fn state(self) -> ReadyState {
        self.ready_state
    }

    /// The queue that the callbacks fill.
    pub closed spec fn receiver(self) -> UnboundedReceiver<InternalQueue> {
        self.queue
    }

    /// What the looks at the queue have found so far, in order: the entries that were taken from it,
    /// and each look that found none.
    pub closed spec fn answers(self) -> Seq<Look> {
        self.answers@
    }

    /// What the code means with which the creation of a socket ended: a positive code is the handle
    /// of a socket that is connecting, and the calls hook it up; with every other code the creation
    /// has failed, and there is nothing to hook up.
    pub fn created(code: i32, queue: UnboundedReceiver<InternalQueue>) -> (r: Result<
        (WebSocketStream, Vec<SocketCall>),
        Error,
    >)
        ensures
            code > 0 ==> (r matches Ok((stream, calls)) && stream.handle() == code
                && stream.state() is Connecting && stream.receiver() == queue && stream.answers()
                == Seq::<Look>::empty() && calls@ == hook_calls(code)),
            code <= 0 ==> (r matches Err(Error::Emscripten(error)) && error == creation_error(code)),
            code <= 0 && !is_named_error_code(code) ==> (r matches Err(
                Error::Emscripten(EmError::UnknownCode(c)),
            ) && c == code),
    {
        if code > 0 {
            let calls = set_callback_hooks(code);
            let stream = WebSocketStream {
                socket_handle: code,
                ready_state: ReadyState::Connecting,
                queue,
                answers: Answers::new(),
            };
            Ok((stream, calls))
        } else {
            match EmError::try_from(code) {
                Ok(error) => Err(Error::from(error)),
                Err(_) => Err(Error::from(EmError::UnknownCode(code))),
            }
        }
    }

    pub fn ready_state(&self) -> (r: ReadyState)
        ensures
            r == self.state(),
    {
        self.ready_state
    }

    /// The handle by which the runtime knows the socket.
    pub fn socket_handle(&self) -> (r: i32)
        ensures
            r == self.handle(),
    {
        self.socket_handle
    }

    /// Sends bytes. The runtime is told their number modulo 2^32.
    pub fn send_binary(&self, bytes: Bytes) -> (r: SocketCall)
        ensures
            sends(self.handle(), Message::Binary(bytes), r),
    {
        let length: u64 = bytes.len() as u64;
        assert(length as u32 == length % 0x1_0000_0000) by (bit_vector);
        SocketCall::SendBinary {
            socket: self.socket_handle,
            data: bytes,
            data_length: #[verifier::truncate] (length as u32),
        }
    }

    /// Sends a text, without its NULs.
    pub fn send_text(&self, message: String) -> (r: SocketCall)
        ensures
            sends(self.handle(), Message::Text(message), r),
            fits_c_string(r),
    {
        proof {
            lemma_without_nul(message@);
        }
        SocketCall::SendUtf8Text {
            socket: self.socket_handle,
            text: remove_nul(message.as_str()),
        }
    }

    /// Starts to close the socket.
    pub fn close_with_reason(&mut self, code: u16, reason: String) -> (r: SocketCall)
        requires
            nul_free(reason@),
        ensures
            final(self).state() is Closing,
            final(self).handle() == old(self).handle(),
            final(self).receiver() == old(self).receiver(),
            final(self).answers() == old(self).answers(),
            r == (SocketCall::Close { socket: old(self).handle(), code, reason }),
            fits_c_string(r),
    {
        self.ready_state = ReadyState::Closing;
        SocketCall::Close { socket: self.socket_handle, code, reason }
    }

    /// Starts to close the socket, for no particular reason.
    pub fn close(&mut self) -> (r: SocketCall)
        ensures
            final(self).state() is Closing,
            final(self).handle() == old(self).handle(),
            final(self).receiver() == old(self).receiver(),
            final(self).answers() == old(self).answers(),
            sends(old(self).handle(), Message::Close(None), r),
            fits_c_string(r),
    {
        self.ready_state = ReadyState::Closing;
        SocketCall::Close {
            socket: self.socket_handle,
            code: NORMAL_CLOSURE,
            reason: String::new(),
        }
    }

    /// Polls for the next message. It looks at the queue once, and follows `stream_step` on what the
    /// queue answered.
    pub fn poll_next(&mut self, cx: &mut Context<'_>) -> (r: StreamPoll)
        ensures
            exists|polled: QueuePoll|
                (final(self).state(), r) == #[trigger] stream_step(old(self).state(), polled),
            final(self).answers() == old(self).answers().push(final(self).answers().last()),
            final(self).answers().last().wakes,
            (final(self).state(), r) == stream_step(
                old(self).state(),
                final(self).answers().last().found,
            ),
            final(self).handle() == old(self).handle(),
    {
        let polled = poll_queue(self, cx);
        self.on_queue_polled(polled)
    }

    /// What a poll for the next message makes of the answer of the queue.
    pub fn on_queue_polled(&mut self, polled: QueuePoll) -> (r: StreamPoll)
        ensures
            (final(self).state(), r) == stream_step(old(self).state(), polled),
            final(self).handle() == old(self).handle(),
            final(self).receiver() == old(self).receiver(),
            final(self).answers() == old(self).answers(),
    {
        match polled {
            QueuePoll::Entry(entry) => match entry {
                InternalQueue::StateChange(ready_state) => {
                    self.ready_state = ready_state;
                    StreamPoll::Again
                },
                InternalQueue::Message(item) => StreamPoll::Item(item),
            },
            QueuePoll::Closed => StreamPoll::End,
            QueuePoll::Empty => match self.ready_state() {
                ReadyState::Closed => StreamPoll::End,
                _ => StreamPoll::Pending,
            },
        }
    }

    /// Polls for readiness to send. A socket that is connecting looks at the queue once, and follows
    /// `sink_step` on what the queue answered; any other does not look at the queue.
    pub fn poll_ready(&mut self) -> (r: SinkPoll)
        ensures
            exists|taken: QueuePoll|
                (final(self).state(), r) == #[trigger] sink_step(old(self).state(), taken),
            old(self).state() is Connecting ==> {
                &&& final(self).answers() == old(self).answers().push(final(self).answers().last())
                &&& !final(self).answers().last().wakes
                &&& (final(self).state(), r) == sink_step(
                    old(self).state(),
                    final(self).answers().last().found,
                )
            },
            !(old(self).state() is Connecting) ==> {
                &&& (final(self).state(), r) == sink_step(old(self).state(), QueuePoll::Empty)
                &&& final(self).receiver() == old(self).receiver()
                &&& final(self).answers() == old(self).answers()
            },
            final(self).handle() == old(self).handle(),
    {
        let taken = match self.ready_state() {
            ReadyState::Connecting => take_from_queue(self),
            _ => QueuePoll::Empty,
        };
        self.on_queue_taken(taken)
    }

    /// What a poll for readiness to send makes of the answer of the queue.
    pub fn on_queue_taken(&mut self, taken: QueuePoll) -> (r: SinkPoll)
        ensures
            (final(self).state(), r) == sink_step(old(self).state(), taken),
            final(self).handle() == old(self).handle(),
            final(self).receiver() == old(self).receiver(),
            final(self).answers() == old(self).answers(),
    {
        match self.ready_state() {
            ReadyState::Open => SinkPoll::Ready(Ok(())),
            ReadyState::Connecting => {
                if let QueuePoll::Entry(InternalQueue::StateChange(s)) = taken {
                    self.ready_state = s;
                    if s == ReadyState::Open {
                        return SinkPoll::Ready(Ok(()));
                    }
                }
                SinkPoll::Pending
            },
            _ => SinkPoll::Ready(Err(Error::ConnectionClosed)),
        }
    }

    /// Sends a message on an open socket. A close message starts to close it.
    pub fn start_send(&mut self, item: Message) -> (r: Result<SocketCall, Error>)
        requires
            old(self).state() is Open ==> is_sendable(item),
        ensures
            old(self).state() is Open ==> (r matches Ok(call) && sends(
                old(self).handle(),
                item,
                call,
            ) && fits_c_string(call)),
            !(old(self).state() is Open) ==> r == Err::<SocketCall, Error>(Error::ConnectionClosed),
            final(self).state() == (if old(self).state() is Open && item is Close {
                ReadyState::Closing
            } else {
                old(self).state()
            }),
            final(self).handle() == old(self).handle(),
            final(self).receiver() == old(self).receiver(),
            final(self).answers() == old(self).answers(),
    {
        match self.ready_state() {
            ReadyState::Open => match item {
                Message::Text(text) => Ok(self.send_text(text)),
                Message::Binary(bytes) => Ok(self.send_binary(bytes)),
                Message::Close(frame) => match frame {
                    Some(frame) => Ok(self.close_with_reason(frame.code(), frame.reason())),
                    None => Ok(self.close()),
                },
            },
            _ => Err(Error::ConnectionClosed),
        }
    }

    /// The calls that release the socket: no callback may come any more, and then it is deleted.
    pub fn release(&self) -> (r: Vec<SocketCall>)
        ensures
            r@ == release_calls(self.handle()),
    {
        let mut calls: Vec<SocketCall> = Vec::new();
        calls.push(set_callback(self.socket_handle, SocketEvent::Close, false));
        calls.push(set_callback(self.socket_handle, SocketEvent::Message, false));
        calls.push(set_callback(self.socket_handle, SocketEvent::Open, false));
        calls.push(SocketCall::Delete { socket: self.socket_handle });
        calls
    }
}

/// The queue entries that are items of the stream, in order.
pub open spec fn items(entries: Seq<InternalQueue>) -> Seq<Result<Message, Error>>
    decreases entries.len(),
{
    if entries.len() == 0 {
        seq![]
    } else {
        match entries.last() {
            InternalQueue::StateChange(_) => items(entries.drop_last()),
            InternalQueue::Message(item) => items(entries.drop_last()).push(item),
        }
    }
}

/// The state that the last state change among `entries` announces, or `state` where there is none.
pub open spec fn state_after(state: ReadyState, entries: Seq<InternalQueue>) -> ReadyState
    decreases entries.len(),
{
    if entries.len() == 0 {
        state
    } else {
        match entries.last() {
            InternalQueue::StateChange(next) => next,
            InternalQueue::Message(_) => state_after(state, entries.drop_last()),
        }
    }
}

/// The state and the outcomes after the stream was polled once for each of `entries`, in order.
pub open spec fn polls(state: ReadyState, entries: Seq<InternalQueue>) -> (
    ReadyState,
    Seq<StreamPoll>,
)
    decreases entries.len(),
{
    if entries.len() == 0 {
        (state, seq![])
    } else {
        let before = polls(state, entries.drop_last());
        let step = stream_step(before.0, QueuePoll::Entry(entries.last()));
        (step.0, before.1.push(step.1))
    }
}

/// The items among the outcomes of polls, in order.
pub open spec fn received(outcomes: Seq<StreamPoll>) -> Seq<Result<Message, Error>>
    decreases outcomes.len(),
{
    if outcomes.len() == 0 {
        seq![]
    } else {
        match outcomes.last() {
            StreamPoll::Item(item) => received(outcomes.drop_last()).push(item),
            _ => received(outcomes.drop_last()),
        }
    }
}

/// The callbacks that are registered on `socket` after `calls`.
pub open spec fn registered_after(
    socket: i32,
    registered: Set<SocketEvent>,
    calls: Seq<SocketCall>,
) -> Set<SocketEvent>
    decreases calls.len(),
{
    if calls.len() == 0 {
        registered
    } else {
        let before = registered_after(socket, registered, calls.drop_last());
        match calls.last() {
            SocketCall::SetCallback { socket: s, event, registered: true, .. } if s == socket =>
                before.insert(event),
            SocketCall::SetCallback { socket: s, event, registered: false, .. } if s == socket =>
                before.remove(event),
            _ => before,
        }
    }
}

/// No failed creation is lost: the error stands for exactly the code that came back.
pub proof fn lemma_creation_error_keeps_code(code: i32)
    ensures
        creation_error(code).code() == code,
{
}

/// What was queued comes out of the stream: every item, once, in order and unchanged. The stream
/// ends up in the state that was announced last, and it does not end while there are entries.
pub proof fn lemma_stream_delivers(state: ReadyState, entries: Seq<InternalQueue>)
    ensures
        received(polls(state, entries).1) == items(entries),
        polls(state, entries).0 == state_after(state, entries),
        polls(state, entries).1.len() == entries.len(),
        forall|i: int|
            0 <= i < entries.len() ==> {
                let outcome = #[trigger] polls(state, entries).1[i];
                outcome is Item || outcome is Again
            },
    decreases entries.len(),
{
    if entries.len() > 0 {
        lemma_stream_delivers(state, entries.drop_last());
        let before = polls(state, entries.drop_last()).1;
        let outcomes = polls(state, entries).1;
        assert(outcomes.drop_last() =~= before);
        assert forall|i: int| 0 <= i < entries.len() implies {
            let outcome = #[trigger] outcomes[i];
            outcome is Item || outcome is Again
        } by {
            if i < before.len() {
                assert(outcomes[i] == before[i]);
            }
        }
    }
}

/// After the entries of a close the stream gives the close message, and then it ends. What is
/// still queued before them is given first, in whatever state the stream was.
pub proof fn lemma_stream_ends_after_close(
    state: ReadyState,
    earlier: Seq<InternalQueue>,
    close: Message,
)
    ensures
        ({
            let entries = earlier.push(InternalQueue::StateChange(ReadyState::Closed)).push(
                InternalQueue::Message(Ok(close)),
            );
            let after = polls(state, entries);
            &&& received(after.1) == items(earlier).push(Ok(close))
            &&& after.0 is Closed
            &&& stream_step(after.0, QueuePoll::Empty) == (after.0, StreamPoll::End)
            &&& stream_step(after.0, QueuePoll::Closed) == (after.0, StreamPoll::End)
        }),
{
    let announced = earlier.push(InternalQueue::StateChange(ReadyState::Closed));
    let entries = announced.push(InternalQueue::Message(Ok(close)));
    lemma_stream_delivers(state, entries);
    assert(announced.drop_last() =~= earlier);
    assert(entries.drop_last() =~= announced);
    assert(items(announced) == items(earlier));
    assert(state_after(state, announced) is Closed);
}

/// A stream with nothing in its queue ends exactly where the socket is closed; before that it
/// waits.
pub proof fn lemma_empty_queue(state: ReadyState)
    ensures
        stream_step(state, QueuePoll::Empty).0 == state,
        stream_step(state, QueuePoll::Empty).1 is End <==> state is Closed,
        stream_step(state, QueuePoll::Empty).1 is Pending <==> !(state is Closed),
{
}

/// Readiness to send means that the socket is open, so that a message can be sent; and an open
/// socket is always ready.
pub proof fn lemma_ready_means_open(state: ReadyState, taken: QueuePoll)
    ensures
        (sink_step(state, taken).1 matches SinkPoll::Ready(Ok(_))) <==> sink_step(state, taken).0
            is Open,
        state is Open ==> sink_step(state, taken) == (state, SinkPoll::Ready(Ok(()))),
{
}

/// A socket that is closing or closed is never ready to send again of itself: every poll answers
/// that the connection is closed, and changes nothing.
pub proof fn lemma_closed_is_refused(state: ReadyState, taken: QueuePoll)
    requires
        state is Closing || state is Closed,
    ensures
        sink_step(state, taken) == (state, SinkPoll::Ready(Err(Error::ConnectionClosed))),
{
}

/// Releasing a socket undoes hooking it up: all three callbacks are registered by the one, none is
/// left by the other, and the deletion of the socket comes last.
pub proof fn lemma_release_undoes_hooks(socket: i32, registered: Set<SocketEvent>)
    ensures
        forall|event: SocketEvent|
            registered_after(socket, registered, hook_calls(socket)).contains(event),
        registered_after(socket, registered, release_calls(socket)) == Set::<SocketEvent>::empty(),
        release_calls(socket).last() == (SocketCall::Delete { socket }),
{
    let hooks = hook_calls(socket);
    let h1 = hooks.take(1);
    let h2 = hooks.take(2);
    assert(hooks.drop_last() =~= h2);
    assert(h2.drop_last() =~= h1);
    assert(h1.drop_last() =~= seq![]);
    let calls = release_calls(socket);
    let c1 = calls.take(1);
    let c2 = calls.take(2);
    let c3 = calls.take(3);
    assert(calls.drop_last() =~= c3);
    assert(c3.drop_last() =~= c2);
    assert(c2.drop_last() =~= c1);
    assert(c1.drop_last() =~= seq![]);
    reveal_with_fuel(registered_after, 5);
    assert forall|event: SocketEvent|
        registered_after(socket, registered, hooks).contains(event) by {
        match event {
            SocketEvent::Close => {},
            SocketEvent::Message => {},
            SocketEvent::Open => {},
        }
    }
    assert(registered_after(socket, registered, calls) =~= Set::<SocketEvent>::empty());
}

/// A text that comes back from the other side is the text that was sent: the C string that the
/// runtime is handed, reported as a text message, reads as the message without its NULs, which is
/// the message itself where it has none.
pub proof fn lemma_text_comes_back(
    socket: i32,
    message: String,
    call: SocketCall,
    behind: Seq<u8>,
    event: EmscriptenWebSocketMessageEvent,
    received: Message,
)
    requires
        sends(socket, Message::Text(message), call),
        event.is_text,
        event.payload() == c_string(encode_utf8(call->SendUtf8Text_text@).push(0) + behind),
        event.reports(received),
    ensures
        event.is_readable(),
        received matches Message::Text(text) && text@ == without_nul(message@),
        nul_free(message@) ==> without_nul(message@) == message@,
{
    lemma_without_nul(message@);
    lemma_c_string_round_trip(without_nul(message@), behind);
    encode_utf8_valid_utf8(without_nul(message@));
    encode_utf8_decode_utf8(without_nul(message@));
}

/// Bytes that come back from the other side are the bytes that were sent, as long as their number
/// fits into 32 bits.
pub proof fn lemma_bytes_come_back(
    socket: i32,
    bytes: Bytes,
    call: SocketCall,
    event: EmscriptenWebSocketMessageEvent,
    received: Message,
)
    requires
        sends(socket, Message::Binary(bytes), call),
        content(bytes).len() <= u32::MAX,
        !event.is_text,
        event.payload() == content(call->SendBinary_data).take(
            call->SendBinary_data_length as int,
        ),
        event.reports(received),
    ensures
        received matches Message::Binary(back) && content(back) == content(bytes),
{
    assert(content(bytes).take(content(bytes).len() as int) =~= content(bytes));
}

/// The reason for a close that comes back in a close event is the reason that was given.
pub proof fn lemma_reason_comes_back(
    socket: i32,
    frame: CloseFrame,
    call: SocketCall,
    behind: Seq<u8>,
    event: EmscriptenWebSocketCloseEvent,
    received: CloseFrame,
)
    requires
        is_sendable(Message::Close(Some(frame))),
        sends(socket, Message::Close(Some(frame)), call),
        event.reason@ == encode_utf8(call->Close_reason@).push(0) + behind,
        event.code == call->Close_code,
        reports_close(Some(event), received@),
    ensures
        event.is_readable(),
        received@.reason == frame@.reason,
        received@.code == frame@.code,
{
    lemma_c_string_round_trip(frame@.reason, behind);
    assert(event.reason@[encode_utf8(frame@.reason).len() as int] == 0);
}

} // verus!
