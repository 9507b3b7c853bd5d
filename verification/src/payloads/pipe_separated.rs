//! The pipe-separated format: agent id, message type, message and timestamp,
//! in this order, with a `|` between them. The timestamp is written in
//! decimal.

use crate::decimal::{
    decimal, is_digit, lemma_decimal_digits, lemma_decimal_round_trip, parse_u64, parsed_u64,
    to_decimal,
};
use crate::payloads::{Error, ErrorView, PayloadView, TransactionPayload};
use crate::text::{
    append_bytes, find_byte, has_byte, has_char, lemma_ascii_byte_in_encoding, lemma_position_found,
    position, text_from_bytes,
};
use vstd::prelude::*;
use vstd::slice::slice_subrange;
use vstd::utf8::{decode_utf8, encode_utf8, encode_utf8_decode_utf8, encode_utf8_valid_utf8, valid_utf8};

verus! {

/// The byte that separates two fields: `|`.
pub const SEPARATOR: u8 = 124;

/// The reason given for bytes that do not consist of four fields.
pub open spec fn field_count_reason() -> Seq<char> {
    "Payload does not consist of four fields"@
}

/// The reason given where agent id or message type is not valid UTF-8.
pub open spec fn encoding_reason() -> Seq<char> {
    "Agent id and message type must be valid UTF-8"@
}

/// The bytes of `payload`: its four fields with a separator between them.
pub open spec fn serialized(payload: PayloadView) -> Seq<u8> {
    encode_utf8(payload.agent_id) + seq![SEPARATOR] + encode_utf8(payload.message_type)
        + seq![SEPARATOR] + payload.message_bytes + seq![SEPARATOR] + decimal(
        payload.timestamp as nat,
    )
}

/// Where the field that starts at `from` ends: the index of the first
/// separator at or after `from`, or the length of `bytes` if there is none.
pub open spec fn field_end(bytes: Seq<u8>, from: int) -> int {
    position(bytes, SEPARATOR, from)
}

/// The four fields of `bytes`, if three separators divide it into four.
pub open spec fn fields(bytes: Seq<u8>) -> Option<(Seq<u8>, Seq<u8>, Seq<u8>, Seq<u8>)> {
    let len = bytes.len() as int;
    let first = field_end(bytes, 0);
    let second = field_end(bytes, first + 1);
    let third = field_end(bytes, second + 1);
    let fourth = field_end(bytes, third + 1);
    if first < len && second < len && third < len && fourth == len {
        Some(
            (
                bytes.subrange(0, first),
                bytes.subrange(first + 1, second),
                bytes.subrange(second + 1, third),
                bytes.subrange(third + 1, len),
            ),
        )
    } else {
        None
    }
}

/// The payload that `bytes` stand for. Agent id and message type have to be
/// valid UTF-8; the message is taken as it is; the timestamp is an optional
/// plus sign and digits that fit 64 bits.
pub open spec fn deserialized(bytes: Seq<u8>) -> Result<PayloadView, ErrorView> {
    match fields(bytes) {
        None => Err(ErrorView::InvalidPayload(field_count_reason())),
        Some((agent_id, message_type, message, timestamp)) => {
            if !valid_utf8(agent_id) || !valid_utf8(message_type) {
                Err(ErrorView::InvalidPayload(encoding_reason()))
            } else {
                match parsed_u64(timestamp) {
                    None => Err(ErrorView::InvalidTimestamp),
                    Some(number) => Ok(
                        PayloadView {
                            agent_id: decode_utf8(agent_id),
                            message_type: decode_utf8(message_type),
                            message_bytes: message,
                            timestamp: number,
                        },
                    ),
                }
            }
        },
    }
}

/// Whether no field of `payload` holds the separator, so that the payload
/// can be read back from its bytes.
pub open spec fn separator_free(payload: PayloadView) -> bool {
    &&& !has_char(payload.agent_id, '|')
    &&& !has_char(payload.message_type, '|')
    &&& !has_byte(payload.message_bytes, SEPARATOR)
}

/// Reading back what was written: a payload whose agent id, message type and
/// message hold no separator is what its bytes stand for.
pub proof fn lemma_round_trip(payload: PayloadView)
    requires
        separator_free(payload),
    ensures
        deserialized(serialized(payload)) == Ok::<PayloadView, ErrorView>(payload),
{
    let a = encode_utf8(payload.agent_id);
    let t = encode_utf8(payload.message_type);
    let m = payload.message_bytes;
    let d = decimal(payload.timestamp as nat);
    let bytes = serialized(payload);
    let first = a.len() as int;
    let second = first + 1 + t.len();
    let third = second + 1 + m.len();
    let len = bytes.len() as int;
    lemma_ascii_byte_in_encoding(payload.agent_id, SEPARATOR);
    lemma_ascii_byte_in_encoding(payload.message_type, SEPARATOR);
    lemma_decimal_digits(payload.timestamp as nat);
    lemma_position_found(bytes, SEPARATOR, 0, first);
    lemma_position_found(bytes, SEPARATOR, first + 1, second);
    lemma_position_found(bytes, SEPARATOR, second + 1, third);
    lemma_position_found(bytes, SEPARATOR, third + 1, len);
    assert(bytes.subrange(0, first) =~= a);
    assert(bytes.subrange(first + 1, second) =~= t);
    assert(bytes.subrange(second + 1, third) =~= m);
    assert(bytes.subrange(third + 1, len) =~= d);
    encode_utf8_valid_utf8(payload.agent_id);
    encode_utf8_valid_utf8(payload.message_type);
    encode_utf8_decode_utf8(payload.agent_id);
    encode_utf8_decode_utf8(payload.message_type);
    lemma_decimal_round_trip(payload.timestamp);
}

/// Writes `payload` in the pipe-separated format.
pub fn write(payload: &TransactionPayload) -> (bytes: Vec<u8>)
    ensures
        bytes@ == serialized(payload@),
{
    let mut bytes: Vec<u8> = Vec::new();
    append_bytes(&mut bytes, payload.agent_id.as_str().as_bytes());
    bytes.push(SEPARATOR);
    append_bytes(&mut bytes, payload.message_type.as_str().as_bytes());
    bytes.push(SEPARATOR);
    append_bytes(&mut bytes, payload.message_bytes.as_slice());
    bytes.push(SEPARATOR);
    let timestamp = to_decimal(payload.timestamp);
    append_bytes(&mut bytes, timestamp.as_slice());
    bytes
}

/// Reads a payload in the pipe-separated format.
pub fn read(bytes: &[u8]) -> (outcome: Result<TransactionPayload, Error>)
    ensures
        crate::payloads::outcome_view(outcome) == deserialized(bytes@),
{
    let len = bytes.len();
    let first = find_byte(bytes, SEPARATOR, 0);
    if first >= len {
        return Err(Error::InvalidPayload("Payload does not consist of four fields".to_owned()));
    }
    let second = find_byte(bytes, SEPARATOR, first + 1);
    if second >= len {
        return Err(Error::InvalidPayload("Payload does not consist of four fields".to_owned()));
    }
    let third = find_byte(bytes, SEPARATOR, second + 1);
    if third >= len {
        return Err(Error::InvalidPayload("Payload does not consist of four fields".to_owned()));
    }
    let fourth = find_byte(bytes, SEPARATOR, third + 1);
    if fourth < len {
        return Err(Error::InvalidPayload("Payload does not consist of four fields".to_owned()));
    }
    let agent_id = text_from_bytes(slice_subrange(bytes, 0, first));
    let message_type = text_from_bytes(slice_subrange(bytes, first + 1, second));
    match (agent_id, message_type) {
        (Some(agent_id), Some(message_type)) => {
            match parse_u64(slice_subrange(bytes, third + 1, len)) {
                Some(timestamp) => Ok(
                    TransactionPayload {
                        agent_id,
                        message_type,
                        message_bytes: vstd::slice::slice_to_vec(
                            slice_subrange(bytes, second + 1, third),
                        ),
                        timestamp,
                    },
                ),
                None => Err(Error::InvalidTimestamp),
            }
        },
        _ => Err(Error::InvalidPayload("Agent id and message type must be valid UTF-8".to_owned())),
    }
}

/// The pipe-separated format.
#[derive(Debug, Clone, Copy, PartialEq, Eq)]
pub struct Format {}

impl Default for Format {
    fn default() -> (format: Format) {
        Format {  }
    }
}

impl crate::payloads::Format for Format {
    open spec fn serialized(&self, payload: PayloadView) -> Seq<u8> {
        serialized(payload)
    }

    open spec fn deserialized(&self, bytes: Seq<u8>) -> Result<PayloadView, ErrorView> {
        deserialized(bytes)
    }

    fn serialize(&self, payload: &TransactionPayload) -> (bytes: Vec<u8>) {
        write(payload)
    }

    fn deserialize(&self, bytes: &[u8]) -> (outcome: Result<TransactionPayload, Error>) {
        read(bytes)
    }
}

} // verus!
