use bytes::Bytes;
use emscripten::websocket::message::{CloseFrame, Message};

#[test]
fn close_frame_keeps_its_parts() {
    let frame = CloseFrame::new(true, 1001, "going away".to_owned());
    assert!(frame.was_clean());
    assert_eq!(frame.code(), 1001);
    assert_eq!(frame.reason(), "going away");
    let frame = CloseFrame::new(false, 0, String::new());
    assert!(!frame.was_clean());
    assert_eq!(frame.code(), 0);
    assert_eq!(frame.reason(), "");
}

#[test]
fn text_messages() {
    for message in [
        Message::text("h\u{e9}llo"),
        Message::text("h\u{e9}llo".to_owned()),
        Message::from("h\u{e9}llo"),
        Message::from("h\u{e9}llo".to_owned()),
    ] {
        assert!(message.is_text());
        assert!(!message.is_binary());
        assert!(!message.is_close());
        assert_eq!(message.len(), 6);
        assert!(!message.is_empty());
        assert_eq!(&message.into_data()[..], "h\u{e9}llo".as_bytes());
    }
    assert!(Message::text("").is_empty());
}

#[test]
fn binary_messages() {
    let data: &[u8] = &[0, 1, 255];
    for message in [
        Message::binary(vec![0u8, 1, 255]),
        Message::binary(Bytes::from_static(&[0, 1, 255])),
        Message::from(data),
        Message::from(vec![0u8, 1, 255]),
    ] {
        assert!(message.is_binary());
        assert!(!message.is_text());
        assert!(!message.is_close());
        assert_eq!(message.len(), 3);
        assert!(!message.is_empty());
        assert_eq!(&Bytes::from(message)[..], data);
    }
    assert!(Message::binary(Vec::<u8>::new()).is_empty());
}

#[test]
fn messages_keep_what_they_are_made_from() {
    for text in ["", "a\0b", "\u{1F600}"] {
        assert!(matches!(Message::text(text), Message::Text(kept) if kept == text));
        assert!(matches!(Message::text(text.to_owned()), Message::Text(kept) if kept == text));
    }
    for data in [&b""[..], &b"text"[..], &b"\xff\0"[..]] {
        assert!(matches!(Message::binary(data.to_vec()), Message::Binary(kept) if kept == data));
        let bytes = Bytes::copy_from_slice(data);
        assert!(matches!(Message::binary(bytes), Message::Binary(kept) if kept == data));
    }
}

#[test]
fn close_messages() {
    let message = Message::Close(None);
    assert!(message.is_close());
    assert!(!message.is_text());
    assert!(!message.is_binary());
    assert_eq!(message.len(), 0);
    assert!(message.is_empty());
    assert!(message.into_data().is_empty());

    let message = Message::Close(Some(CloseFrame::new(true, 1000, "bye".to_owned())));
    assert!(message.is_close());
    assert_eq!(message.len(), 3);
    assert!(!message.is_empty());
    assert_eq!(&message.into_data()[..], b"bye");
}
