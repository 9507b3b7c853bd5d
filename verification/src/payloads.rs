//! The message that a transaction carries, and the formats that turn it into
//! bytes and back.

pub mod pipe_separated;

use vstd::prelude::*;

verus! {

/// A message of an agent: who sent it, what kind it is, its content, and
/// when it was sent.
#[derive(Debug, Clone, PartialEq, Eq)]
pub struct TransactionPayload {
    pub agent_id: String,
    pub message_type: String,
    pub message_bytes: Vec<u8>,
    pub timestamp: u64,
}

/// A payload as plain values.
pub struct PayloadView {
    pub agent_id: Seq<char>,
    pub message_type: Seq<char>,
    pub message_bytes: Seq<u8>,
    pub timestamp: u64,
}

impl View for TransactionPayload {
    type V = PayloadView;

    open spec fn view(&self) -> PayloadView {
        PayloadView {
            agent_id: self.agent_id@,
            message_type: self.message_type@,
            message_bytes: self.message_bytes@,
            timestamp: self.timestamp,
        }
    }
}

impl DeepView for TransactionPayload {
    type V = PayloadView;

    open spec fn deep_view(&self) -> PayloadView {
        self@
    }
}

/// Why bytes could not be read as a payload.
#[derive(Debug, Clone, PartialEq, Eq)]
pub enum Error {
    /// The bytes do not have the shape of a payload; the text says why.
    InvalidPayload(String),
    /// The timestamp is no unsigned 64-bit number.
    InvalidTimestamp,
}

/// A payload error as plain values.
pub enum ErrorView {
    InvalidPayload(Seq<char>),
    InvalidTimestamp,
}

impl View for Error {
    type V = ErrorView;

    open spec fn view(&self) -> ErrorView {
        match self {
            Error::InvalidPayload(reason) => ErrorView::InvalidPayload(reason@),
            Error::InvalidTimestamp => ErrorView::InvalidTimestamp,
        }
    }
}

/// The outcome of reading a payload, as plain values.
pub open spec fn outcome_view(outcome: Result<TransactionPayload, Error>) -> Result<
    PayloadView,
    ErrorView,
> {
    match outcome {
        Ok(payload) => Ok(payload@),
        Err(error) => Err(error@),
    }
}

/// A wire format for payloads. The two spec functions say what the format
/// writes and reads; the two methods compute just that.
pub trait Format {
    /// The bytes that stand for `payload`.
    spec fn serialized(&self, payload: PayloadView) -> Seq<u8>;

    /// The payload that `bytes` stand for, or why they stand for none.
    spec fn deserialized(&self, bytes: Seq<u8>) -> Result<PayloadView, ErrorView>;

    /// Writes `payload` in this format.
    fn serialize(&self, payload: &TransactionPayload) -> (bytes: Vec<u8>)
        ensures
            bytes@ == self.serialized(payload@),
    ;

    /// Reads a payload in this format.
    fn deserialize(&self, bytes: &[u8]) -> (outcome: Result<TransactionPayload, Error>)
        ensures
            outcome_view(outcome) == self.deserialized(bytes@),
    ;
}

impl TransactionPayload {
    /// A payload of the given fields.
    pub fn new(agent_id: &str, message_type: &str, message_bytes: &[u8], timestamp: u64) -> (payload:
        Self)
        ensures
            payload@ == (PayloadView {
                agent_id: agent_id@,
                message_type: message_type@,
                message_bytes: message_bytes@,
                timestamp,
            }),
    {
        TransactionPayload {
            agent_id: agent_id.to_owned(),
            message_type: message_type.to_owned(),
            message_bytes: vstd::slice::slice_to_vec(message_bytes),
            timestamp,
        }
    }

    /// The payload in the pipe-separated format.
    pub fn serialize(&self) -> (bytes: Vec<u8>)
        ensures
            bytes@ == pipe_separated::serialized(self@),
    {
        pipe_separated::write(self)
    }
}

} // verus!
