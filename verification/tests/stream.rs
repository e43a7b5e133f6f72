use bytes::Bytes;
use emscripten::websocket::error::Error;
use emscripten::websocket::event::{
    on_close_ws, on_message_ws, on_open_ws, EmscriptenWebSocketCloseEvent,
    EmscriptenWebSocketMessageEvent, InternalQueue, ReadyState,
};
use emscripten::websocket::message::{CloseFrame, Message};
use emscripten::websocket::stream::{
    connect_with_protocols, set_callback_hooks, QueuePoll, SinkPoll, SocketCall, SocketEvent,
    StreamPoll, WebSocketStream,
};
use emscripten::EmError;
use futures::task::noop_waker_ref;
use futures_channel::mpsc::{unbounded, UnboundedSender};
use std::task::Context;

fn connecting() -> (UnboundedSender<InternalQueue>, WebSocketStream) {
    let (sender, queue) = unbounded();
    let (stream, _) = WebSocketStream::created(5, queue).unwrap();
    (sender, stream)
}

fn in_state(state: ReadyState) -> (UnboundedSender<InternalQueue>, WebSocketStream) {
    let (sender, mut stream) = connecting();
    stream.on_queue_polled(QueuePoll::Entry(InternalQueue::StateChange(state)));
    (sender, stream)
}

fn poll(stream: &mut WebSocketStream) -> StreamPoll {
    stream.poll_next(&mut Context::from_waker(noop_waker_ref()))
}

fn send_all(sender: &UnboundedSender<InternalQueue>, entries: Vec<InternalQueue>) {
    for entry in entries {
        sender.unbounded_send(entry).unwrap();
    }
}

fn close_event(reason: &[u8]) -> EmscriptenWebSocketCloseEvent {
    let mut field = [0u8; 512];
    field[..reason.len()].copy_from_slice(reason);
    EmscriptenWebSocketCloseEvent { socket: 5, was_clean: true, code: 1001, reason: field }
}

fn message_event(data: Option<&[u8]>, is_text: bool) -> EmscriptenWebSocketMessageEvent {
    EmscriptenWebSocketMessageEvent { socket: 5, data: data.map(|d| d.to_vec()), is_text }
}

fn is_callback(call: &SocketCall, event: SocketEvent, registered: bool) -> bool {
    matches!(call, SocketCall::SetCallback { socket: 5, event: e, registered: r, target_thread: 2 }
        if *e == event && *r == registered)
}

#[test]
fn attributes_of_a_new_socket() {
    let attributes = connect_with_protocols("wss://example.org", &["v1", "v2"]);
    assert_eq!(attributes.url, "wss://example.org");
    assert_eq!(attributes.protocols, Some("v1,v2".to_owned()));
    assert!(attributes.create_on_main_thread);
    let attributes = connect_with_protocols("ws://h", &["only"]);
    assert_eq!(attributes.protocols, Some("only".to_owned()));
    let attributes = connect_with_protocols("ws://h", &[]);
    assert_eq!(attributes.protocols, None);
}

#[test]
fn a_positive_code_is_a_handle() {
    let (_sender, queue) = unbounded();
    let (stream, calls) = WebSocketStream::created(5, queue).unwrap();
    assert_eq!(stream.ready_state(), ReadyState::Connecting);
    assert_eq!(stream.socket_handle(), 5);
    assert_eq!(calls.len(), 3);
    assert!(is_callback(&calls[0], SocketEvent::Close, true));
    assert!(is_callback(&calls[1], SocketEvent::Message, true));
    assert!(is_callback(&calls[2], SocketEvent::Open, true));
}

#[test]
fn a_negative_code_is_an_error() {
    let (_sender, queue) = unbounded();
    assert!(matches!(
        WebSocketStream::created(-1, queue),
        Err(Error::Emscripten(EmError::NotSupported))
    ));
    let (_sender, queue) = unbounded();
    assert!(matches!(
        WebSocketStream::created(-8, queue),
        Err(Error::Emscripten(EmError::TimedOut))
    ));
}

#[test]
fn a_code_that_names_nothing_is_an_error_too() {
    for code in [0, -9, -1000, i32::MIN] {
        let (_sender, queue) = unbounded();
        assert!(matches!(
            WebSocketStream::created(code, queue),
            Err(Error::Emscripten(EmError::UnknownCode(c))) if c == code
        ));
    }
}

#[test]
fn release_undoes_the_hooks() {
    let (_sender, stream) = connecting();
    let hooks = set_callback_hooks(5);
    let calls = stream.release();
    assert_eq!(hooks.len(), 3);
    assert_eq!(calls.len(), 4);
    for event in [SocketEvent::Close, SocketEvent::Message, SocketEvent::Open] {
        assert!(hooks.iter().any(|call| is_callback(call, event, true)));
        assert!(calls[..3].iter().any(|call| is_callback(call, event, false)));
    }
    assert!(matches!(calls[3], SocketCall::Delete { socket: 5 }));
}

#[test]
fn message_events() {
    let queued = on_message_ws(message_event(Some("h\u{e9}".as_bytes()), true));
    assert_eq!(queued.len(), 1);
    assert!(matches!(&queued[0], InternalQueue::Message(Ok(Message::Text(t))) if t == "h\u{e9}"));
    let queued = on_message_ws(message_event(Some(&[0xff, 0]), false));
    assert!(matches!(&queued[0], InternalQueue::Message(Ok(Message::Binary(b))) if b[..] == [0xff, 0]));
    let queued = on_message_ws(message_event(None, true));
    assert!(matches!(&queued[0], InternalQueue::Message(Ok(Message::Text(t))) if t.is_empty()));
    let queued = on_message_ws(message_event(None, false));
    assert!(matches!(&queued[0], InternalQueue::Message(Ok(Message::Binary(b))) if b.is_empty()));
}

#[test]
fn close_events() {
    let queued = on_close_ws(Some(close_event(b"done")));
    assert_eq!(queued.len(), 2);
    assert!(matches!(queued[0], InternalQueue::StateChange(ReadyState::Closed)));
    match &queued[1] {
        InternalQueue::Message(Ok(Message::Close(Some(frame)))) => {
            assert!(frame.was_clean());
            assert_eq!(frame.code(), 1001);
            assert_eq!(frame.reason(), "done");
        }
        other => panic!("{:?}", other),
    }
    let queued = on_close_ws(Some(close_event(b"a\xffb")));
    assert!(matches!(&queued[1], InternalQueue::Message(Ok(Message::Close(Some(frame))))
        if frame.reason() == "a\u{FFFD}b"));
}

#[test]
fn a_lost_connection_is_an_abnormal_closure() {
    let queued = on_close_ws(None);
    assert_eq!(queued.len(), 2);
    assert!(matches!(queued[0], InternalQueue::StateChange(ReadyState::Closed)));
    match &queued[1] {
        InternalQueue::Message(Ok(Message::Close(Some(frame)))) => {
            assert!(!frame.was_clean());
            assert_eq!(frame.code(), 1006);
            assert_eq!(frame.reason(), "");
        }
        other => panic!("{:?}", other),
    }
}

#[test]
fn open_events() {
    let queued = on_open_ws();
    assert_eq!(queued.len(), 1);
    assert!(matches!(queued[0], InternalQueue::StateChange(ReadyState::Open)));
}

#[test]
fn polling_delivers_what_was_queued_in_order() {
    let (sender, mut stream) = connecting();
    assert!(matches!(poll(&mut stream), StreamPoll::Pending));
    send_all(&sender, on_open_ws());
    send_all(&sender, on_message_ws(message_event(Some(b"one"), true)));
    send_all(&sender, on_message_ws(message_event(Some(b"two"), false)));
    sender.unbounded_send(InternalQueue::Message(Err(Error::AttackAttempt))).unwrap();
    assert!(matches!(poll(&mut stream), StreamPoll::Again));
    assert_eq!(stream.ready_state(), ReadyState::Open);
    assert!(matches!(poll(&mut stream), StreamPoll::Item(Ok(Message::Text(t))) if t == "one"));
    assert!(matches!(poll(&mut stream), StreamPoll::Item(Ok(Message::Binary(b))) if b[..] == *b"two"));
    assert!(matches!(poll(&mut stream), StreamPoll::Item(Err(Error::AttackAttempt))));
    assert!(matches!(poll(&mut stream), StreamPoll::Pending));
    assert_eq!(stream.ready_state(), ReadyState::Open);
}

#[test]
fn the_stream_ends_after_the_close_message() {
    let (sender, mut stream) = in_state(ReadyState::Open);
    send_all(&sender, on_message_ws(message_event(Some(b"last"), true)));
    send_all(&sender, on_close_ws(Some(close_event(b"bye"))));
    assert!(matches!(poll(&mut stream), StreamPoll::Item(Ok(Message::Text(t))) if t == "last"));
    assert!(matches!(poll(&mut stream), StreamPoll::Again));
    assert!(matches!(poll(&mut stream), StreamPoll::Item(Ok(Message::Close(Some(f))))
        if f.reason() == "bye"));
    assert!(matches!(poll(&mut stream), StreamPoll::End));
    assert_eq!(stream.ready_state(), ReadyState::Closed);
}

#[test]
fn the_stream_ends_when_nothing_can_come_any_more() {
    let (sender, mut stream) = in_state(ReadyState::Open);
    drop(sender);
    assert!(matches!(poll(&mut stream), StreamPoll::End));
    assert_eq!(stream.ready_state(), ReadyState::Open);
}

#[test]
fn an_open_socket_is_ready() {
    let (sender, mut stream) = in_state(ReadyState::Open);
    send_all(&sender, on_message_ws(message_event(Some(b"kept"), true)));
    assert!(matches!(stream.poll_ready(), SinkPoll::Ready(Ok(()))));
    assert!(matches!(poll(&mut stream), StreamPoll::Item(Ok(Message::Text(t))) if t == "kept"));
}

#[test]
fn a_connecting_socket_waits_for_the_open_event() {
    let (sender, mut stream) = connecting();
    assert!(matches!(stream.poll_ready(), SinkPoll::Pending));
    assert_eq!(stream.ready_state(), ReadyState::Connecting);
    send_all(&sender, on_open_ws());
    assert!(matches!(stream.poll_ready(), SinkPoll::Ready(Ok(()))));
    assert_eq!(stream.ready_state(), ReadyState::Open);
}

#[test]
fn a_connecting_socket_that_is_closed_is_refused_at_the_next_poll() {
    let (sender, mut stream) = connecting();
    send_all(&sender, on_close_ws(None));
    assert!(matches!(stream.poll_ready(), SinkPoll::Pending));
    assert_eq!(stream.ready_state(), ReadyState::Closed);
    assert!(matches!(stream.poll_ready(), SinkPoll::Ready(Err(Error::ConnectionClosed))));
}

#[test]
fn a_message_does_not_make_a_connecting_socket_ready() {
    let (sender, mut stream) = connecting();
    send_all(&sender, on_message_ws(message_event(Some(b"early"), true)));
    assert!(matches!(stream.poll_ready(), SinkPoll::Pending));
    assert_eq!(stream.ready_state(), ReadyState::Connecting);
    assert!(matches!(poll(&mut stream), StreamPoll::Pending));
    drop(sender);
    assert!(matches!(stream.poll_ready(), SinkPoll::Pending));
}

#[test]
fn a_closing_or_closed_socket_is_refused() {
    for state in [ReadyState::Closing, ReadyState::Closed] {
        let (sender, mut stream) = in_state(state);
        send_all(&sender, on_open_ws());
        assert!(matches!(stream.poll_ready(), SinkPoll::Ready(Err(Error::ConnectionClosed))));
        assert_eq!(stream.ready_state(), state);
    }
}

#[test]
fn sending_on_an_open_socket() {
    let (_sender, mut stream) = in_state(ReadyState::Open);
    assert!(matches!(
        stream.start_send(Message::text("a\0b")),
        Ok(SocketCall::SendUtf8Text { socket: 5, text }) if text == "ab"
    ));
    assert!(matches!(
        stream.start_send(Message::binary(vec![1u8, 0, 2])),
        Ok(SocketCall::SendBinary { socket: 5, data, data_length: 3 }) if data[..] == [1, 0, 2]
    ));
    assert_eq!(stream.ready_state(), ReadyState::Open);
}

#[test]
fn sending_a_close_message_starts_to_close() {
    let (_sender, mut stream) = in_state(ReadyState::Open);
    let frame = CloseFrame::new(false, 4000, "enough".to_owned());
    assert!(matches!(
        stream.start_send(Message::Close(Some(frame))),
        Ok(SocketCall::Close { socket: 5, code: 4000, reason }) if reason == "enough"
    ));
    assert_eq!(stream.ready_state(), ReadyState::Closing);
    assert!(matches!(stream.start_send(Message::text("late")), Err(Error::ConnectionClosed)));

    let (_sender, mut stream) = in_state(ReadyState::Open);
    assert!(matches!(
        stream.start_send(Message::Close(None)),
        Ok(SocketCall::Close { socket: 5, code: 1000, reason }) if reason.is_empty()
    ));
    assert_eq!(stream.ready_state(), ReadyState::Closing);
}

#[test]
fn sending_needs_an_open_socket() {
    for state in [ReadyState::Connecting, ReadyState::Closing, ReadyState::Closed] {
        let (_sender, mut stream) = in_state(state);
        assert!(matches!(stream.start_send(Message::text("x")), Err(Error::ConnectionClosed)));
        assert!(matches!(stream.start_send(Message::Close(None)), Err(Error::ConnectionClosed)));
        assert_eq!(stream.ready_state(), state);
    }
}

#[test]
fn direct_calls() {
    let (_sender, mut stream) = connecting();
    assert!(matches!(
        stream.send_text("\0".to_owned()),
        SocketCall::SendUtf8Text { socket: 5, text } if text.is_empty()
    ));
    assert!(matches!(
        stream.send_binary(Bytes::from_static(b"xy")),
        SocketCall::SendBinary { socket: 5, data, data_length: 2 } if data[..] == *b"xy"
    ));
    assert_eq!(stream.ready_state(), ReadyState::Connecting);
    assert!(matches!(
        stream.close_with_reason(1001, "away".to_owned()),
        SocketCall::Close { socket: 5, code: 1001, reason } if reason == "away"
    ));
    assert_eq!(stream.ready_state(), ReadyState::Closing);
    let (_sender, mut stream) = connecting();
    assert!(matches!(
        stream.close(),
        SocketCall::Close { socket: 5, code: 1000, reason } if reason.is_empty()
    ));
    assert_eq!(stream.ready_state(), ReadyState::Closing);
}

#[test]
fn what_is_sent_comes_back() {
    let (sender, mut stream) = in_state(ReadyState::Open);
    let text = match stream.start_send(Message::text("ping \u{1F600}")) {
        Ok(SocketCall::SendUtf8Text { text, .. }) => text,
        other => panic!("{:?}", other),
    };
    send_all(&sender, on_message_ws(message_event(Some(text.as_bytes()), true)));
    assert!(matches!(poll(&mut stream), StreamPoll::Item(Ok(Message::Text(t)))
        if t == "ping \u{1F600}"));
    let data = match stream.start_send(Message::binary(vec![9u8, 8, 7])) {
        Ok(SocketCall::SendBinary { data, .. }) => data,
        other => panic!("{:?}", other),
    };
    send_all(&sender, on_message_ws(message_event(Some(&data), false)));
    assert!(matches!(poll(&mut stream), StreamPoll::Item(Ok(Message::Binary(b)))
        if b[..] == [9, 8, 7]));
    let frame = CloseFrame::new(true, 1001, "bye".to_owned());
    let reason = match stream.start_send(Message::Close(Some(frame))) {
        Ok(SocketCall::Close { reason, .. }) => reason,
        other => panic!("{:?}", other),
    };
    send_all(&sender, on_close_ws(Some(close_event(reason.as_bytes()))));
    assert!(matches!(poll(&mut stream), StreamPoll::Again));
    assert!(matches!(poll(&mut stream), StreamPoll::Item(Ok(Message::Close(Some(f))))
        if f.reason() == "bye" && f.code() == 1001));
}
