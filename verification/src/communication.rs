//! Messages whose timestamp is kept as text, their addresses, and the reading
//! of replies for a client that tells its caller no more than that a call
//! failed.

use crate::family::{namespace, KEY_LENGTH, NAMESPACE_LENGTH};
use crate::helper::{calculate_checksum, checksum, is_hex_lower};
use crate::sawtooth::messages::{Message, MessageType};
use crate::text::append_bytes;
use vstd::prelude::*;
use vstd::string::{StrSliceExecFns, StringExecFns};
use vstd::utf8::encode_utf8;

verus! {

/// The one error of this client: the call failed.
#[derive(Debug, Clone, Copy, PartialEq, Eq, Structural)]
pub enum Error {
    ClientError,
}

/// A message of an agent with its timestamp as the agent wrote it.
#[derive(Debug)]
pub struct AlicaMessage {
    agent_id: String,
    message_type: String,
    message: String,
    timestamp: String,
}

/// A message as plain values.
pub struct AlicaMessageView {
    pub agent_id: Seq<char>,
    pub message_type: Seq<char>,
    pub message: Seq<char>,
    pub timestamp: Seq<char>,
}

impl View for AlicaMessage {
    type V = AlicaMessageView;

    closed spec fn view(&self) -> AlicaMessageView {
        AlicaMessageView {
            agent_id: self.agent_id@,
            message_type: self.message_type@,
            message: self.message@,
            timestamp: self.timestamp@,
        }
    }
}

/// The bytes that stand for `message`: its four fields with a `|` between
/// them.
pub open spec fn serialized(message: AlicaMessageView) -> Seq<u8> {
    encode_utf8(message.agent_id) + seq![124u8] + encode_utf8(message.message_type) + seq![124u8]
        + encode_utf8(message.message) + seq![124u8] + encode_utf8(message.timestamp)
}

/// The address of `message` in the family called `family_name`: the family's
/// namespace, then the first sixty-four characters of the checksum of agent
/// id, message type and timestamp, one after the other.
pub open spec fn state_address(family_name: Seq<char>, message: AlicaMessageView) -> Seq<char> {
    namespace(family_name) + checksum(
        encode_utf8(message.agent_id) + encode_utf8(message.message_type) + encode_utf8(
            message.timestamp,
        ),
    ).subrange(0, 64)
}

impl AlicaMessage {
    /// A message of the given fields.
    pub fn new(agent_id: String, message_type: String, message: String, timestamp: String) -> (made:
        AlicaMessage)
        ensures
            made@ == (AlicaMessageView {
                agent_id: agent_id@,
                message_type: message_type@,
                message: message@,
                timestamp: timestamp@,
            }),
    {
        AlicaMessage { agent_id, message_type, message, timestamp }
    }

    /// The bytes of the message.
    pub fn serialize(&self) -> (bytes: Vec<u8>)
        ensures
            bytes@ == serialized(self@),
    {
        let mut bytes: Vec<u8> = Vec::new();
        append_bytes(&mut bytes, self.agent_id.as_str().as_bytes());
        bytes.push(124);
        append_bytes(&mut bytes, self.message_type.as_str().as_bytes());
        bytes.push(124);
        append_bytes(&mut bytes, self.message.as_str().as_bytes());
        bytes.push(124);
        append_bytes(&mut bytes, self.timestamp.as_str().as_bytes());
        bytes
    }
}

/// The prefix that all addresses of the family called `family_name` share.
pub fn get_namespace(family_name: &str) -> (prefix: String)
    ensures
        prefix@ == namespace(family_name@),
        prefix@.len() == NAMESPACE_LENGTH,
        is_hex_lower(prefix@),
{
    let sum = calculate_checksum(family_name.as_bytes());
    sum.as_str().substring_ascii(0, NAMESPACE_LENGTH).to_owned()
}

/// The address under which the state of `message` is kept.
pub fn state_address_for(family_name: &str, message: &AlicaMessage) -> (address: String)
    ensures
        address@ == state_address(family_name@, message@),
        address@.len() == 70,
        is_hex_lower(address@),
{
    let mut key: Vec<u8> = Vec::new();
    append_bytes(&mut key, message.agent_id.as_str().as_bytes());
    append_bytes(&mut key, message.message_type.as_str().as_bytes());
    append_bytes(&mut key, message.timestamp.as_str().as_bytes());
    let payload_part = calculate_checksum(key.as_slice());
    let namespace_part = get_namespace(family_name);
    namespace_part.concat(payload_part.as_str().substring_ascii(0, KEY_LENGTH))
}

/// Reads the reply to a call: the decoded content where the reply is of the
/// expected kind and its content could be decoded, `ClientError` otherwise.
/// `None` stands for content that could not be decoded.
pub fn parse_response<T>(response: &Message, expected_response_type: &MessageType, decoded: Option<
    T,
>) -> (outcome: Result<T, Error>)
    ensures
        outcome == (if response.message_type@ == expected_response_type@ && decoded is Some {
            Ok::<T, Error>(decoded.unwrap())
        } else {
            Err::<T, Error>(Error::ClientError)
        }),
{
    if response.message_type.name() == expected_response_type.name() {
        match decoded {
            Some(value) => Ok(value),
            None => Err(Error::ClientError),
        }
    } else {
        Err(Error::ClientError)
    }
}

} // verus!
