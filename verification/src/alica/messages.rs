//! A message with nothing but its type and its text.

use crate::text::append_bytes;
use vstd::prelude::*;
use vstd::utf8::encode_utf8;

verus! {

/// A message of some type.
#[derive(Debug)]
pub struct Payload {
    message_type: String,
    message: String,
}

/// The bytes that stand for a message: its type, two semicolons, its text.
pub open spec fn serialized(message_type: Seq<char>, message: Seq<char>) -> Seq<u8> {
    encode_utf8(message_type) + seq![59u8, 59u8] + encode_utf8(message)
}

impl Payload {
    /// A message of the given type with the given text.
    pub fn new(message_type: String, message: String) -> (payload: Self)
        ensures
            payload.message_type() == message_type@,
            payload.message() == message@,
    {
        Payload { message_type, message }
    }

    /// The type of the message.
    pub closed spec fn message_type(&self) -> Seq<char> {
        self.message_type@
    }

    /// The text of the message.
    pub closed spec fn message(&self) -> Seq<char> {
        self.message@
    }

    /// The bytes of the message.
    pub fn serialize(&self) -> (bytes: Vec<u8>)
        ensures
            bytes@ == serialized(self.message_type(), self.message()),
    {
        let mut bytes: Vec<u8> = Vec::new();
        append_bytes(&mut bytes, self.message_type.as_str().as_bytes());
        bytes.push(59);
        bytes.push(59);
        append_bytes(&mut bytes, self.message.as_str().as_bytes());
        bytes
    }
}

} // verus!
