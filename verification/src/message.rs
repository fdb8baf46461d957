//! Application-visible WebSocket messages. Only text and binary content is
//! ever represented here; control frames are protocol-internal and invisible
//! to consumers.
use vstd::prelude::*;
use vstd::utf8::encode_utf8;

verus! {

/// The content a message holds: a text payload or a binary one.
#[derive(Debug, PartialEq, Eq)]
pub enum MessageInner {
    Text(String),
    Binary(Vec<u8>),
}

/// A WebSocket message: an immutable text or binary value.
#[derive(Debug, PartialEq, Eq)]
pub struct Message {
    pub inner: MessageInner,
}

/// The payload bytes of a message as a peer sees them on the wire: the UTF-8
/// bytes of a text message, the raw bytes of a binary one.
pub open spec fn payload_bytes(m: Message) -> Seq<u8> {
    match m.inner {
        MessageInner::Text(s) => encode_utf8(s@),
        MessageInner::Binary(v) => v@,
    }
}

impl Message {
    /// Construct a new Text message.
    pub fn text(s: String) -> (m: Message)
        ensures
            m == (Message { inner: MessageInner::Text(s) }),
    {
        Message { inner: MessageInner::Text(s) }
    }

    /// Construct a new Binary message.
    pub fn binary(v: Vec<u8>) -> (m: Message)
        ensures
            m == (Message { inner: MessageInner::Binary(v) }),
    {
        Message { inner: MessageInner::Binary(v) }
    }

    /// True exactly when this is a Text message.
    pub fn is_text(&self) -> (r: bool)
        ensures
            r == (self.inner is Text),
    {
        match &self.inner {
            MessageInner::Text(_) => true,
            MessageInner::Binary(_) => false,
        }
    }

    /// True exactly when this is a Binary message.
    pub fn is_binary(&self) -> (r: bool)
        ensures
            r == (self.inner is Binary),
    {
        match &self.inner {
            MessageInner::Text(_) => false,
            MessageInner::Binary(_) => true,
        }
    }

    /// The text of a Text message; an error for a Binary one.
    pub fn to_str(&self) -> (r: Result<&str, ()>)
        ensures
            (self.inner matches MessageInner::Text(s) ==> (r matches Ok(t) && t@ == s@)),
            self.inner is Binary ==> r is Err,
    {
        match &self.inner {
            MessageInner::Text(s) => Ok(s.as_str()),
            MessageInner::Binary(_) => Err(()),
        }
    }

    /// The payload bytes of this message.
    pub fn as_bytes(&self) -> (r: &[u8])
        ensures
            r@ == payload_bytes(*self),
    {
        match &self.inner {
            MessageInner::Text(s) => s.as_str().as_bytes(),
            MessageInner::Binary(v) => v.as_slice(),
        }
    }
}

} // verus!
