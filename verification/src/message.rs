//! The messages that travel through the bridge, and their wire form.

use std::string::FromUtf8Error;
use vstd::prelude::*;
use vstd::string::*;
use vstd::utf8::*;

verus! {

/// The error of std's `String::from_utf8`; nothing is read from it.
#[verifier::external_type_specification]
#[verifier::external_body]
pub struct ExFromUtf8Error(FromUtf8Error);

/// Taken on trust of std's `String::from_utf8`: it succeeds exactly on
/// well-formed UTF-8, and the string it then returns is made of the very bytes
/// it was given.
pub assume_specification[ String::from_utf8 ](vec: Vec<u8>) -> (decoded: Result<
    String,
    FromUtf8Error,
>)
    ensures
        decoded is Ok <==> valid_utf8(vec@),
        decoded is Ok ==> encode_utf8(decoded->Ok_0@) == vec@,
;

/// A line of the conversation.
///
/// The two system variants are made locally, for display; only `User` text
/// crosses the broker boundary.
#[derive(Debug, PartialEq, Eq)]
pub enum ChatMessage {
    Connected,
    Disconnected,
    User(String),
}

/// What a [`ChatMessage`] is, with the text as a sequence of characters.
pub enum MessageView {
    Connected,
    Disconnected,
    User(Seq<char>),
}

impl MessageView {
    /// The text shown for the message.
    pub open spec fn text(self) -> Seq<char> {
        match self {
            MessageView::Connected => "Connected to NATS server!"@,
            MessageView::Disconnected => "Connection to NATS lost... Retrying..."@,
            MessageView::User(text) => text,
        }
    }

    /// The bytes published for the message: the UTF-8 form of a user's text.
    /// A system message has none, it never crosses the broker boundary.
    pub open spec fn payload(self) -> Option<Seq<u8>> {
        match self {
            MessageView::User(text) => Some(encode_utf8(text)),
            _ => None,
        }
    }

    /// The message that an inbound payload stands for: a user message with
    /// the decoded text, or none where the bytes are not well-formed UTF-8.
    pub open spec fn from_payload(bytes: Seq<u8>) -> Option<MessageView> {
        if valid_utf8(bytes) {
            Some(MessageView::User(decode_utf8(bytes)))
        } else {
            None
        }
    }
}

impl View for ChatMessage {
    type V = MessageView;

    open spec fn view(&self) -> MessageView {
        match self {
            ChatMessage::Connected => MessageView::Connected,
            ChatMessage::Disconnected => MessageView::Disconnected,
            ChatMessage::User(text) => MessageView::User(text@),
        }
    }
}

impl Clone for ChatMessage {
    fn clone(&self) -> (copy: Self)
        ensures
            copy@ == self@,
    {
        match self {
            ChatMessage::Connected => ChatMessage::Connected,
            ChatMessage::Disconnected => ChatMessage::Disconnected,
            ChatMessage::User(text) => ChatMessage::User(text.clone()),
        }
    }
}

impl ChatMessage {
    /// A user message with the given text; none for an empty text.
    pub fn new(message: &str) -> (made: Option<Self>)
        ensures
            message@.len() == 0 ==> made is None,
            message@.len() > 0 ==> made is Some && made->0@ == MessageView::User(message@),
    {
        if message.is_empty() {
            None
        } else {
            Some(ChatMessage::User(message.to_owned()))
        }
    }

    /// The line shown when a connection has been made.
    pub fn connected() -> (made: Self)
        ensures
            made@ == MessageView::Connected,
    {
        ChatMessage::Connected
    }

    /// The line shown when the connection has been lost.
    pub fn disconnected() -> (made: Self)
        ensures
            made@ == MessageView::Disconnected,
    {
        ChatMessage::Disconnected
    }

    /// The text shown for the message.
    pub fn as_str(&self) -> (text: &str)
        ensures
            text@ == self@.text(),
    {
        match self {
            ChatMessage::Connected => "Connected to NATS server!",
            ChatMessage::Disconnected => "Connection to NATS lost... Retrying...",
            ChatMessage::User(message) => message.as_str(),
        }
    }

    /// The text shown for the message, as a string of its own.
    pub fn to_string(&self) -> (text: String)
        ensures
            text@ == self@.text(),
    {
        self.as_str().to_owned()
    }

    /// The bytes to publish for the message, if it is one that is published.
    pub fn payload(&self) -> (bytes: Option<Vec<u8>>)
        ensures
            match bytes {
                Some(bytes) => self@.payload() == Some(bytes@),
                None => self@.payload() is None,
            },
    {
        match self {
            ChatMessage::User(text) => Some(text.as_str().as_bytes_vec()),
            _ => None,
        }
    }

    /// Reads an inbound payload. Bytes that are not well-formed UTF-8 give no
    /// message: they are noise to be dropped, not a fault.
    pub fn from_payload(bytes: Vec<u8>) -> (message: Option<Self>)
        ensures
            match message {
                Some(message) => MessageView::from_payload(bytes@) == Some(message@),
                None => MessageView::from_payload(bytes@) is None,
            },
    {
        match String::from_utf8(bytes) {
            Ok(text) => {
                proof {
                    encode_utf8_decode_utf8(text@);
                }
                Some(ChatMessage::User(text))
            },
            Err(_) => None,
        }
    }
}

/// A published user message that the broker hands back unchanged is read as
/// the same message: the wire form loses nothing.
pub proof fn lemma_payload_round_trip(text: Seq<char>)
    ensures
        MessageView::User(text).payload() is Some,
        MessageView::from_payload(MessageView::User(text).payload()->0) == Some(
            MessageView::User(text),
        ),
{
    encode_utf8_valid_utf8(text);
    encode_utf8_decode_utf8(text);
}

} // verus!
