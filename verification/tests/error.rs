use emscripten::websocket::error::{
    CapacityError, Data, Error, ProtocolError, SubProtocolError, UrlError,
};
use emscripten::{EmError, EmscriptenResult};

#[test]
fn opcode_names() {
    assert_eq!(Data::Continue.to_string(), "CONTINUE");
    assert_eq!(Data::Text.to_string(), "TEXT");
    assert_eq!(Data::Binary.to_string(), "BINARY");
    assert_eq!(Data::Reserved(3).to_string(), "RESERVED_DATA_3");
    assert_eq!(Data::Reserved(255).to_string(), "RESERVED_DATA_255");
}

#[test]
fn results_of_the_runtime_become_results_of_the_stream() {
    assert!(Result::<(), Error>::from(EmscriptenResult::Success).is_ok());
    assert!(Result::<(), Error>::from(EmscriptenResult::Deferred).is_ok());
    assert!(matches!(
        Result::<(), Error>::from(EmscriptenResult::Error(EmError::NoData)),
        Err(Error::Emscripten(EmError::NoData))
    ));
    assert!(matches!(
        Result::<(), Error>::from(EmscriptenResult::from(17)),
        Err(Error::Emscripten(EmError::UnknownCode(17)))
    ));
}

#[test]
fn utf8_errors_keep_their_text() {
    let expected = std::str::from_utf8(b"a\xff").unwrap_err().to_string();
    match Error::from(std::str::from_utf8(b"a\xff").unwrap_err()) {
        Error::Utf8(text) => assert_eq!(text, expected),
        other => panic!("{:?}", other),
    }
    let expected = String::from_utf8(b"\xc3".to_vec()).unwrap_err().to_string();
    match Error::from(String::from_utf8(b"\xc3".to_vec()).unwrap_err()) {
        Error::Utf8(text) => assert_eq!(text, expected),
        other => panic!("{:?}", other),
    }
}

#[test]
fn causes_are_wrapped() {
    let io = std::io::Error::from(std::io::ErrorKind::WouldBlock);
    assert!(matches!(Error::from(io), Error::Io(e) if e.kind() == std::io::ErrorKind::WouldBlock));
    let capacity = CapacityError::MessageTooLong { size: 3, max_size: 2 };
    assert!(matches!(Error::from(capacity), Error::Capacity(e) if e == capacity));
    let protocol = ProtocolError::SecWebSocketSubProtocolError(SubProtocolError::NoSubProtocol);
    assert!(matches!(Error::from(protocol.clone()), Error::Protocol(e) if e == protocol));
    assert!(matches!(Error::from(UrlError::NoHostName), Error::Url(UrlError::NoHostName)));
    assert!(matches!(Error::from(EmError::Failed), Error::Emscripten(EmError::Failed)));
}
