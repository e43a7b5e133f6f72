//! What the runtime reports about a WebSocket, and what is queued for its stream.

use crate::text::{c_string, c_string_text, is_lossy_text};
use crate::websocket::error::Error;
use crate::websocket::message::{content, CloseFrame, CloseFrameView, Message};
use bytes::Bytes;
use vstd::prelude::*;
use vstd::utf8::*;

verus! {

/// The code of a connection that was lost without a close frame.
pub const ABNORMAL_CLOSURE: u16 = 1006;

/// The states of a WebSocket, in the order of the numbers 0 to 3 that the runtime gives them.
#[derive(Clone, Debug, Copy, PartialEq, Eq, Structural)]
pub enum ReadyState {
    Connecting,
    Open,
    Closing,
    Closed,
}

/// What the callbacks leave for the stream.
#[derive(Debug)]
pub enum InternalQueue {
    StateChange(ReadyState),
    Message(Result<Message, Error>),
}

/// A message that arrived.
#[derive(Debug)]
pub struct EmscriptenWebSocketMessageEvent {
    /// The socket that it arrived on.
    pub socket: i32,
    /// The bytes at the data pointer, or nothing where that pointer is null.
    pub data: Option<Vec<u8>>,
    /// Whether it is a text message.
    pub is_text: bool,
}

/// A connection that was closed.
#[derive(Debug)]
pub struct EmscriptenWebSocketCloseEvent {
    /// The socket that was closed.
    pub socket: i32,
    /// Whether the connection was closed cleanly.
    pub was_clean: bool,
    /// The close code.
    pub code: u16,
    /// The reason, as a C string.
    pub reason: [u8; 512],
}

impl EmscriptenWebSocketMessageEvent {
    /// The bytes of the message: a null pointer stands for none.
    pub open spec fn payload(self) -> Seq<u8> {
        match self.data {
            Some(bytes) => bytes@,
            None => Seq::empty(),
        }
    }

    /// A text message has to be well-formed UTF-8.
    pub open spec fn is_readable(self) -> bool {
        self.is_text ==> valid_utf8(self.payload())
    }

    /// `message` is the message that this event reports.
    pub open spec fn reports(self, message: Message) -> bool {
        if self.is_text {
            message matches Message::Text(text) && text@ == decode_utf8(self.payload())
        } else {
            message matches Message::Binary(bytes) && content(bytes) == self.payload()
        }
    }
}

impl EmscriptenWebSocketCloseEvent {
    /// The reason has to be a C string: a NUL ends it within its field.
    pub open spec fn is_readable(self) -> bool {
        self.reason@.contains(0)
    }
}

/// `frame` is the close frame that an event reports. Without an event the connection was lost.
pub open spec fn reports_close(
    event: Option<EmscriptenWebSocketCloseEvent>,
    frame: CloseFrameView,
) -> bool {
    match event {
        Some(event) => {
            &&& frame.clean == event.was_clean
            &&& frame.code == event.code
            &&& is_lossy_text(frame.reason, c_string(event.reason@))
        },
        None => frame == (CloseFrameView {
            clean: false,
            code: ABNORMAL_CLOSURE,
            reason: Seq::empty(),
        }),
    }
}

/// Queues a message that arrived.
pub fn on_message_ws(event: EmscriptenWebSocketMessageEvent) -> (r: Vec<InternalQueue>)
    requires
        event.is_readable(),
    ensures
        r@.len() == 1,
        r@[0] matches InternalQueue::Message(Ok(message)) && event.reports(message),
{
    let bytes: Vec<u8> = match event.data {
        Some(bytes) => bytes,
        None => Vec::new(),
    };
    let message = if event.is_text {
        Message::text(String::from_utf8(bytes).unwrap())
    } else {
        Message::binary(Bytes::from(bytes))
    };
    let mut queued: Vec<InternalQueue> = Vec::new();
    queued.push(InternalQueue::Message(Ok(message)));
    queued
}

/// Queues the end of a connection: first the change of state, then the close frame.
pub fn on_close_ws(event: Option<EmscriptenWebSocketCloseEvent>) -> (r: Vec<InternalQueue>)
    requires
        event matches Some(event) ==> event.is_readable(),
    ensures
        r@.len() == 2,
        r@[0] == InternalQueue::StateChange(ReadyState::Closed),
        r@[1] matches InternalQueue::Message(Ok(Message::Close(Some(frame)))) && reports_close(
            event,
            frame@,
        ),
{
    let frame = match event {
        Some(event) => {
            CloseFrame::new(event.was_clean, event.code, c_string_text(event.reason.as_slice()))
        },
        None => CloseFrame::new(false, ABNORMAL_CLOSURE, String::new()),
    };
    let mut queued: Vec<InternalQueue> = Vec::new();
    queued.push(InternalQueue::StateChange(ReadyState::Closed));
    queued.push(InternalQueue::Message(Ok(Message::Close(Some(frame)))));
    queued
}

/// Queues the beginning of a connection.
pub fn on_open_ws() -> (r: Vec<InternalQueue>)
    ensures
        r@ == seq![InternalQueue::StateChange(ReadyState::Open)],
{
    let mut queued: Vec<InternalQueue> = Vec::new();
    queued.push(InternalQueue::StateChange(ReadyState::Open));
    queued
}

} // verus!
