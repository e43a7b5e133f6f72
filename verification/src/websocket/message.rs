//! The messages of a WebSocket.

use bytes::Bytes;
use vstd::prelude::*;
use vstd::std_specs::convert::FromSpecImpl;
use vstd::string::*;
use vstd::utf8::*;

verus! {

/// `bytes::Bytes`, a cheaply shared immutable byte sequence.
#[verifier::external_type_specification]
#[verifier::external_body]
pub struct ExBytes(bytes::Bytes);

/// The bytes that a `bytes::Bytes` holds.
pub uninterp spec fn content(bytes: Bytes) -> Seq<u8>;

/// `Bytes::new` holds nothing.
pub assume_specification[ Bytes::new ]() -> (r: Bytes)
    ensures
        content(r) == Seq::<u8>::empty(),
;

/// `Bytes::len` is the number of bytes held.
pub assume_specification[ Bytes::len ](bytes: &Bytes) -> (r: usize)
    ensures
        r == content(*bytes).len(),
;

/// `Bytes::copy_from_slice` holds a copy of the slice.
pub assume_specification[ Bytes::copy_from_slice ](data: &[u8]) -> (r: Bytes)
    ensures
        content(r) == data@,
;

/// `Bytes::from` on a `Vec<u8>` holds the bytes of the vector.
pub assume_specification[ <Bytes as From<Vec<u8>>>::from ](vec: Vec<u8>) -> (r: Bytes)
    ensures
        content(r) == vec@,
;

/// `Bytes::from` on a `String` holds its UTF-8 encoding.
pub assume_specification[ <Bytes as From<String>>::from ](s: String) -> (r: Bytes)
    ensures
        content(r) == encode_utf8(s@),
;

/// `String::from` on a string slice copies the text.
pub assume_specification<'a>[ <String as From<&'a str>>::from ](s: &str) -> (r: String)
    ensures
        r@ == s@,
;

/// `From` of a type for itself hands the value back unchanged.
pub assume_specification<V>[ <V as std::convert::From<V>>::from ](v: V) -> (r: V)
    ensures
        r == v,
;

/// A message that was received or is to be sent.
#[derive(Debug)]
pub enum Message {
    Text(String),
    Binary(Bytes),
    Close(Option<CloseFrame>),
}

/// How a connection was closed.
#[derive(Debug)]
pub struct CloseFrame {
    clean: bool,
    code: u16,
    reason: String,
}

/// The three facts that a close frame holds.
pub struct CloseFrameView {
    pub clean: bool,
    pub code: u16,
    pub reason: Seq<char>,
}

impl View for CloseFrame {
    type V = CloseFrameView;

    closed spec fn view(&self) -> CloseFrameView {
        CloseFrameView { clean: self.clean, code: self.code, reason: self.reason@ }
    }
}

impl CloseFrame {
    pub fn new(clean: bool, code: u16, reason: String) -> (r: Self)
        ensures
            r@ == (CloseFrameView { clean, code, reason: reason@ }),
    {
        Self { clean, code, reason }
    }

    pub fn was_clean(&self) -> (r: bool)
        ensures
            r == self@.clean,
    {
        self.clean
    }

    pub fn code(&self) -> (r: u16)
        ensures
            r == self@.code,
    {
        self.code
    }

    pub fn reason(&self) -> (r: String)
        ensures
            r@ == self@.reason,
    {
        self.reason.clone()
    }
}

impl Message {
    /// The message as binary data: the UTF-8 encoding of a text or of the reason for a close.
    pub open spec fn data(self) -> Seq<u8> {
        match self {
            Message::Text(text) => encode_utf8(text@),
            Message::Binary(bytes) => content(bytes),
            Message::Close(None) => Seq::empty(),
            Message::Close(Some(frame)) => encode_utf8(frame@.reason),
        }
    }

    /// Create a new text WebSocket message from a stringable. The text is what the conversion gives.
    pub fn text<S>(string: S) -> (r: Message) where S: Into<String>
        ensures
            r matches Message::Text(text) && call_ensures(
                <S as Into<String>>::into,
                (string,),
                text,
            ),
    {
        Message::Text(string.into())
    }

    /// Create a new binary WebSocket message by converting to `Bytes`. The bytes are what the
    /// conversion gives.
    pub fn binary<B>(bin: B) -> (r: Message) where B: Into<Bytes>
        ensures
            r matches Message::Binary(bytes) && call_ensures(
                <B as Into<Bytes>>::into,
                (bin,),
                bytes,
            ),
    {
        Message::Binary(bin.into())
    }

    /// Indicates whether a message is a text message.
    pub fn is_text(&self) -> (r: bool)
        ensures
            r == (self is Text),
    {
        matches!(*self, Message::Text(_))
    }

    /// Indicates whether a message is a binary message.
    pub fn is_binary(&self) -> (r: bool)
        ensures
            r == (self is Binary),
    {
        matches!(*self, Message::Binary(_))
    }

    /// Indicates whether a message is a close message.
    pub fn is_close(&self) -> (r: bool)
        ensures
            r == (self is Close),
    {
        matches!(*self, Message::Close(_))
    }

    /// Get the length of the WebSocket message.
    pub fn len(&self) -> (r: usize)
        ensures
            r == self.data().len(),
    {
        match self {
            Message::Text(string) => string.as_str().as_bytes().len(),
            Message::Binary(data) => data.len(),
            Message::Close(Some(frame)) => frame.reason.as_str().as_bytes().len(),
            Message::Close(None) => 0,
        }
    }

    /// Returns true if the WebSocket message has no content.
    /// For example, if the other side of the connection sent an empty string.
    pub fn is_empty(&self) -> (r: bool)
        ensures
            r == (self.data().len() == 0),
    {
        self.len() == 0
    }

    /// Consume the WebSocket and return it as binary data.
    pub fn into_data(self) -> (r: Bytes)
        ensures
            content(r) == self.data(),
    {
        match self {
            Message::Text(string) => string.into(),
            Message::Binary(data) => data,
            Message::Close(None) => Bytes::new(),
            Message::Close(Some(frame)) => frame.reason.into(),
        }
    }
}

impl From<String> for Message {
    fn from(string: String) -> (r: Self) {
        Message::text(string)
    }
}

impl FromSpecImpl<String> for Message {
    open spec fn obeys_from_spec() -> bool {
        true
    }

    open spec fn from_spec(string: String) -> Self {
        Message::Text(string)
    }
}

impl<'s> From<&'s str> for Message {
    fn from(string: &'s str) -> (r: Self)
        ensures
            r matches Message::Text(text) && text@ == string@,
    {
        Message::text(string)
    }
}

/// A text is determined by its characters, not as a value; `from` itself says which it holds.
impl<'s> FromSpecImpl<&'s str> for Message {
    open spec fn obeys_from_spec() -> bool {
        false
    }

    open spec fn from_spec(string: &'s str) -> Self {
        arbitrary()
    }
}

impl<'b> From<&'b [u8]> for Message {
    fn from(data: &'b [u8]) -> (r: Self)
        ensures
            r matches Message::Binary(bytes) && content(bytes) == data@,
    {
        Message::binary(Bytes::copy_from_slice(data))
    }
}

/// The bytes held are known, the value that holds them is not; `from` itself says which they are.
impl<'b> FromSpecImpl<&'b [u8]> for Message {
    open spec fn obeys_from_spec() -> bool {
        false
    }

    open spec fn from_spec(data: &'b [u8]) -> Self {
        arbitrary()
    }
}

impl From<Vec<u8>> for Message {
    fn from(data: Vec<u8>) -> (r: Self)
        ensures
            r matches Message::Binary(bytes) && content(bytes) == data@,
    {
        Message::binary(data)
    }
}

/// The bytes held are known, the value that holds them is not; `from` itself says which they are.
impl FromSpecImpl<Vec<u8>> for Message {
    open spec fn obeys_from_spec() -> bool {
        false
    }

    open spec fn from_spec(data: Vec<u8>) -> Self {
        arbitrary()
    }
}

impl From<Message> for Bytes {
    fn from(message: Message) -> (r: Self)
        ensures
            content(r) == message.data(),
    {
        message.into_data()
    }
}

/// The bytes held are known, the value that holds them is not; `from` itself says which they are.
impl FromSpecImpl<Message> for Bytes {
    open spec fn obeys_from_spec() -> bool {
        false
    }

    open spec fn from_spec(message: Message) -> Self {
        arbitrary()
    }
}

/// `Message::text` keeps a `String`: the message is a text with exactly these characters, and its
/// data is their encoding.
pub proof fn lemma_text_keeps_string(string: String, message: Message)
    requires
        call_ensures(Message::text::<String>, (string,), message),
    ensures
        message == Message::Text(string),
        message.data() == encode_utf8(string@),
{
}

/// `Message::text` keeps a string slice: the message is a text with exactly these characters, and
/// its data is their encoding.
pub proof fn lemma_text_keeps_str(string: &str, message: Message)
    requires
        call_ensures(Message::text::<&str>, (string,), message),
    ensures
        message matches Message::Text(text) && text@ == string@,
        message.data() == encode_utf8(string@),
{
}

/// `Message::binary` keeps a `Bytes`: the message is binary and holds exactly these bytes, whatever
/// they are.
pub proof fn lemma_binary_keeps_bytes(bin: Bytes, message: Message)
    requires
        call_ensures(Message::binary::<Bytes>, (bin,), message),
    ensures
        message == Message::Binary(bin),
        message.data() == content(bin),
{
}

/// `Message::binary` keeps a `Vec<u8>`: the message is binary and holds exactly these bytes, whatever
/// they are.
pub proof fn lemma_binary_keeps_vec(bin: Vec<u8>, message: Message)
    requires
        call_ensures(Message::binary::<Vec<u8>>, (bin,), message),
    ensures
        message is Binary,
        message.data() == bin@,
{
}

/// A message is of exactly one kind.
pub proof fn lemma_one_kind(message: Message)
    ensures
        message is Text || message is Binary || message is Close,
        !(message is Text && message is Binary),
        !(message is Text && message is Close),
        !(message is Binary && message is Close),
{
}

/// The data of a text message reads as UTF-8, and gives the text back.
pub proof fn lemma_text_data(text: String)
    ensures
        valid_utf8(Message::Text(text).data()),
        decode_utf8(Message::Text(text).data()) == text@,
{
    encode_utf8_valid_utf8(text@);
    encode_utf8_decode_utf8(text@);
}

/// A text message is empty exactly where its text is, and a close message without a frame always.
pub proof fn lemma_empty_text(text: String)
    ensures
        Message::Text(text).data().len() == 0 <==> text@.len() == 0,
        Message::Close(None).data().len() == 0,
{
    if text@.len() > 0 {
        encode_utf8_first_scalar(text@);
    }
}

} // verus!
