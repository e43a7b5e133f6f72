//! What can go wrong with a WebSocket.

use crate::result::{EmError, EmscriptenResult};
use crate::text::{decimal, push_decimal};
use crate::websocket::message::Message;
use std::str::Utf8Error;
use std::string::FromUtf8Error;
use vstd::prelude::*;
use vstd::std_specs::convert::{FromSpec, FromSpecImpl};
use vstd::string::*;

verus! {

/// `std::io::Error`, carried through without looking inside.
#[verifier::external_type_specification]
#[verifier::external_body]
pub struct ExIoError(std::io::Error);

/// `std::str::Utf8Error`, carried through without looking inside.
#[verifier::external_type_specification]
#[verifier::external_body]
pub struct ExUtf8Error(std::str::Utf8Error);

/// Possible WebSocket errors.
#[derive(Debug)]
pub enum Error {
    /// The connection is not open. A stream answers this to every attempt to send while it is
    /// connecting, closing or closed, and to every poll for readiness while it is closing or closed.
    ConnectionClosed,
    /// Trying to work with an already closed connection.
    AlreadyClosed,
    /// Input-output error. Apart from WouldBlock, these are generally errors with the
    /// underlying connection and you should probably consider them fatal.
    Io(std::io::Error),
    /// - When reading: buffer capacity exhausted.
    /// - When writing: your message is bigger than the configured max message size.
    Capacity(CapacityError),
    /// Protocol violation.
    Protocol(ProtocolError),
    /// Message write buffer is full.
    WriteBufferFull(Message),
    /// UTF coding error.
    Utf8(String),
    /// Attack attempt detected.
    AttackAttempt,
    /// Invalid URL.
    Url(UrlError),
    /// The runtime refused a call.
    Emscripten(EmError),
}

/// Indicates the specific type/cause of a capacity error.
#[derive(Debug, PartialEq, Eq, Clone, Copy, Structural)]
pub enum CapacityError {
    /// Too many headers provided.
    TooManyHeaders,
    /// Message is bigger than the maximum allowed size.
    MessageTooLong {
        /// The size of the message.
        size: usize,
        /// The maximum allowed message size.
        max_size: usize,
    },
}

/// Indicates the specific type/cause of a subprotocol header error.
#[derive(Clone, PartialEq, Eq, Debug, Copy, Structural)]
pub enum SubProtocolError {
    /// The server sent a subprotocol to a client handshake request but none was requested
    ServerSentSubProtocolNoneRequested,
    /// The server sent an invalid subprotocol to a client handshake request
    InvalidSubProtocol,
    /// The server sent no subprotocol to a client handshake request that requested one or more
    /// subprotocols
    NoSubProtocol,
}

/// Indicates the specific type/cause of a protocol error.
#[derive(Debug, PartialEq, Eq, Clone, Structural)]
pub enum ProtocolError {
    /// Use of the wrong HTTP method (the WebSocket protocol requires the GET method be used).
    WrongHttpMethod,
    /// Wrong HTTP version used (the WebSocket protocol requires version 1.1 or higher).
    WrongHttpVersion,
    /// Missing `Connection: upgrade` HTTP header.
    MissingConnectionUpgradeHeader,
    /// Missing `Upgrade: websocket` HTTP header.
    MissingUpgradeWebSocketHeader,
    /// Missing `Sec-WebSocket-Version: 13` HTTP header.
    MissingSecWebSocketVersionHeader,
    /// Missing `Sec-WebSocket-Key` HTTP header.
    MissingSecWebSocketKey,
    /// The `Sec-WebSocket-Accept` header is either not present or does not specify the correct
    /// key value.
    SecWebSocketAcceptKeyMismatch,
    /// The `Sec-WebSocket-Protocol` header was invalid
    SecWebSocketSubProtocolError(SubProtocolError),
    /// Garbage data encountered after client request.
    JunkAfterRequest,
    /// Custom responses must be unsuccessful.
    CustomResponseSuccessful,
    /// No more data while still performing handshake.
    HandshakeIncomplete,
    /// Not allowed to send after having sent a closing frame.
    SendAfterClosing,
    /// Remote sent data after sending a closing frame.
    ReceivedAfterClosing,
    /// Reserved bits in frame header are non-zero.
    NonZeroReservedBits,
    /// The server must close the connection when an unmasked frame is received.
    UnmaskedFrameFromClient,
    /// The client must close the connection when a masked frame is received.
    MaskedFrameFromServer,
    /// Control frames must not be fragmented.
    FragmentedControlFrame,
    /// Control frames must have a payload of 125 bytes or less.
    ControlFrameTooBig,
    /// Type of control frame not recognised.
    UnknownControlFrameType(u8),
    /// Type of data frame not recognised.
    UnknownDataFrameType(u8),
    /// Received a continue frame despite there being nothing to continue.
    UnexpectedContinueFrame,
    /// Received data while waiting for more fragments.
    ExpectedFragment(Data),
    /// Connection closed without performing the closing handshake.
    ResetWithoutClosingHandshake,
    /// Encountered an invalid opcode.
    InvalidOpcode(u8),
    /// The payload for the closing frame is invalid.
    InvalidCloseSequence,
}

/// Indicates the specific type/cause of URL error.
#[derive(Debug, PartialEq, Eq)]
pub enum UrlError {
    /// TLS is used despite not being compiled with the TLS feature enabled.
    TlsFeatureNotEnabled,
    /// The URL does not include a host name.
    NoHostName,
    /// Failed to connect with this URL.
    UnableToConnect(String),
    /// Unsupported URL scheme used (only `ws://` or `wss://` may be used).
    UnsupportedUrlScheme,
    /// The URL host name, though included, is empty.
    EmptyHostName,
    /// The URL does not include a path/query.
    NoPathOrQuery,
}

/// Data opcodes as in RFC 6455
#[derive(Debug, PartialEq, Eq, Clone, Copy, Structural)]
pub enum Data {
    /// 0x0 denotes a continuation frame
    Continue,
    /// 0x1 denotes a text frame
    Text,
    /// 0x2 denotes a binary frame
    Binary,
    /// 0x3-7 are reserved for further non-control frames
    Reserved(u8),
}

impl Data {
    /// The name of an opcode.
    pub open spec fn name(self) -> Seq<char> {
        match self {
            Data::Continue => "CONTINUE"@,
            Data::Text => "TEXT"@,
            Data::Binary => "BINARY"@,
            Data::Reserved(x) => "RESERVED_DATA_"@ + decimal(x as nat),
        }
    }

    /// The opcode as it is displayed.
    pub fn to_string(&self) -> (r: String)
        ensures
            r@ == self.name(),
    {
        match *self {
            Data::Continue => "CONTINUE".to_owned(),
            Data::Text => "TEXT".to_owned(),
            Data::Binary => "BINARY".to_owned(),
            Data::Reserved(x) => {
                let mut text = "RESERVED_DATA_".to_owned();
                push_decimal(&mut text, x as u16);
                text
            },
        }
    }
}

impl From<EmscriptenResult> for Result<(), Error> {
    fn from(value: EmscriptenResult) -> (r: Self) {
        match value {
            EmscriptenResult::Success | EmscriptenResult::Deferred => Ok(()),
            EmscriptenResult::Error(e) => Err(Error::from(e)),
        }
    }
}

impl FromSpecImpl<EmscriptenResult> for Result<(), Error> {
    open spec fn obeys_from_spec() -> bool {
        true
    }

    open spec fn from_spec(value: EmscriptenResult) -> Self {
        match value {
            EmscriptenResult::Error(e) => Err(Error::Emscripten(e)),
            _ => Ok(()),
        }
    }
}

impl From<Utf8Error> for Error {
    fn from(err: Utf8Error) -> (r: Self)
        ensures
            r matches Error::Utf8(text) && to_string_from_display_ensures::<Utf8Error>(&err, text),
    {
        Error::Utf8(err.to_string())
    }
}

/// The text is the error as it is displayed; `from` itself says so.
impl FromSpecImpl<Utf8Error> for Error {
    open spec fn obeys_from_spec() -> bool {
        false
    }

    open spec fn from_spec(err: Utf8Error) -> Self {
        arbitrary()
    }
}

impl From<FromUtf8Error> for Error {
    fn from(err: FromUtf8Error) -> (r: Self)
        ensures
            r matches Error::Utf8(text) && to_string_from_display_ensures::<FromUtf8Error>(
                &err,
                text,
            ),
    {
        Error::Utf8(err.to_string())
    }
}

/// The text is the error as it is displayed; `from` itself says so.
impl FromSpecImpl<FromUtf8Error> for Error {
    open spec fn obeys_from_spec() -> bool {
        false
    }

    open spec fn from_spec(err: FromUtf8Error) -> Self {
        arbitrary()
    }
}

impl From<std::io::Error> for Error {
    fn from(err: std::io::Error) -> (r: Self) {
        Error::Io(err)
    }
}

impl FromSpecImpl<std::io::Error> for Error {
    open spec fn obeys_from_spec() -> bool {
        true
    }

    open spec fn from_spec(err: std::io::Error) -> Self {
        Error::Io(err)
    }
}

impl From<CapacityError> for Error {
    fn from(err: CapacityError) -> (r: Self) {
        Error::Capacity(err)
    }
}

impl FromSpecImpl<CapacityError> for Error {
    open spec fn obeys_from_spec() -> bool {
        true
    }

    open spec fn from_spec(err: CapacityError) -> Self {
        Error::Capacity(err)
    }
}

impl From<ProtocolError> for Error {
    fn from(err: ProtocolError) -> (r: Self) {
        Error::Protocol(err)
    }
}

impl FromSpecImpl<ProtocolError> for Error {
    open spec fn obeys_from_spec() -> bool {
        true
    }

    open spec fn from_spec(err: ProtocolError) -> Self {
        Error::Protocol(err)
    }
}

impl From<UrlError> for Error {
    fn from(err: UrlError) -> (r: Self) {
        Error::Url(err)
    }
}

impl FromSpecImpl<UrlError> for Error {
    open spec fn obeys_from_spec() -> bool {
        true
    }

    open spec fn from_spec(err: UrlError) -> Self {
        Error::Url(err)
    }
}

impl From<EmError> for Error {
    fn from(err: EmError) -> (r: Self) {
        Error::Emscripten(err)
    }
}

impl FromSpecImpl<EmError> for Error {
    open spec fn obeys_from_spec() -> bool {
        true
    }

    open spec fn from_spec(err: EmError) -> Self {
        Error::Emscripten(err)
    }
}

/// A failure of the runtime is a failure of the stream and keeps its cause, and nothing else is one.
pub proof fn lemma_failures_agree(result: EmscriptenResult)
    ensures
        match <Result<(), EmError> as FromSpec<EmscriptenResult>>::from_spec(result) {
            Ok(_) => <Result<(), Error> as FromSpec<EmscriptenResult>>::from_spec(result) == Ok::<
                (),
                Error,
            >(()),
            Err(e) => <Result<(), Error> as FromSpec<EmscriptenResult>>::from_spec(result) == Err::<
                (),
                Error,
            >(<Error as FromSpec<EmError>>::from_spec(e)),
        },
        <Result<(), Error> as FromSpec<EmscriptenResult>>::from_spec(result) is Err <==> result is Error,
{
}

} // verus!
