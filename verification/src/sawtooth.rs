//! Envelopes for a Sawtooth validator and the protocol spoken with it.

pub mod communication;
pub mod factory;
pub mod messages;

use crate::payloads::TransactionPayload;
use crate::sawtooth::messages::{Batch, BatchHeader, Transaction, TransactionHeader};
use vstd::prelude::*;

verus! {

/// What can go wrong between building an envelope and reading the
/// validator's answer.
#[derive(Debug, Clone, PartialEq, Eq)]
pub enum Error {
    /// The request could not be handed to the transport.
    RequestError,
    /// No reply could be had for a request that was sent.
    ResponseError,
    /// The validator found the batch invalid.
    InvalidBatch,
    /// The validator failed while it handled the batch.
    InternalError,
    /// The validator's queue has no room for the batch.
    FullQueue,
    /// The validator's answer gives no status.
    BatchStatusUnset,
    /// The reply is of another kind than expected: the expected kind's name,
    /// then the name of the kind that came.
    WrongResponse(String, String),
    /// The named component could not be encoded.
    SerializationError(String),
    /// The reply's content could not be decoded.
    DeserializationError,
    /// The named component could not be signed.
    SigningError(String),
    /// The signer's public key could not be had for the named component.
    KeyError(String),
}

/// An error as plain values.
pub enum ErrorView {
    RequestError,
    ResponseError,
    InvalidBatch,
    InternalError,
    FullQueue,
    BatchStatusUnset,
    WrongResponse(Seq<char>, Seq<char>),
    SerializationError(Seq<char>),
    DeserializationError,
    SigningError(Seq<char>),
    KeyError(Seq<char>),
}

impl View for Error {
    type V = ErrorView;

    open spec fn view(&self) -> ErrorView {
        match self {
            Error::RequestError => ErrorView::RequestError,
            Error::ResponseError => ErrorView::ResponseError,
            Error::InvalidBatch => ErrorView::InvalidBatch,
            Error::InternalError => ErrorView::InternalError,
            Error::FullQueue => ErrorView::FullQueue,
            Error::BatchStatusUnset => ErrorView::BatchStatusUnset,
            Error::WrongResponse(expected, actual) => ErrorView::WrongResponse(expected@, actual@),
            Error::SerializationError(component) => ErrorView::SerializationError(component@),
            Error::DeserializationError => ErrorView::DeserializationError,
            Error::SigningError(component) => ErrorView::SigningError(component@),
            Error::KeyError(component) => ErrorView::KeyError(component@),
        }
    }
}

/// Builds transactions. How an implementation comes by keys, nonces and
/// signatures is its own business: each implementation says for itself, in
/// the two spec functions, which outcomes its methods may have, and the
/// methods promise no more than that. An implementation that says nothing
/// leaves every outcome open.
pub trait TransactionFactory {
    /// Whether `outcome` is one that `create_transaction_header_for` may have
    /// for `message`.
    open spec fn makes_header(&self, message: TransactionPayload, outcome: Result<
        TransactionHeader,
        Error,
    >) -> bool {
        true
    }

    /// Whether `outcome` is one that `create_transaction_for` may have for
    /// `message` and `header`.
    open spec fn makes_transaction(
        &self,
        message: TransactionPayload,
        header: TransactionHeader,
        outcome: Result<Transaction, Error>,
    ) -> bool {
        true
    }

    /// The signed transaction that carries `message` under `header`.
    fn create_transaction_for(&self, message: &TransactionPayload, header: &TransactionHeader) -> (outcome:
        Result<Transaction, Error>)
        ensures
            self.makes_transaction(*message, *header, outcome),
    ;

    /// The header of the transaction that is to carry `message`.
    fn create_transaction_header_for(&self, message: &TransactionPayload) -> (outcome: Result<
        TransactionHeader,
        Error,
    >)
        ensures
            self.makes_header(*message, outcome),
    ;
}

/// Builds batches; see `TransactionFactory`.
pub trait BatchFactory {
    /// Whether `outcome` is one that `create_batch_header_for` may have for
    /// `transactions`.
    open spec fn makes_batch_header(&self, transactions: Seq<Transaction>, outcome: Result<
        BatchHeader,
        Error,
    >) -> bool {
        true
    }

    /// Whether `outcome` is one that `create_batch_for` may have for
    /// `transactions` and `header`.
    open spec fn makes_batch(
        &self,
        transactions: Seq<Transaction>,
        header: BatchHeader,
        outcome: Result<Batch, Error>,
    ) -> bool {
        true
    }

    /// The signed batch of `transactions` under `header`.
    fn create_batch_for(&self, transactions: &Vec<Transaction>, header: &BatchHeader) -> (outcome:
        Result<Batch, Error>)
        ensures
            self.makes_batch(transactions@, *header, outcome),
    ;

    /// The header of the batch that is to hold `transactions`.
    fn create_batch_header_for(&self, transactions: &Vec<Transaction>) -> (outcome: Result<
        BatchHeader,
        Error,
    >)
        ensures
            self.makes_batch_header(transactions@, outcome),
    ;
}

/// Builds all that a submission needs.
pub trait ComponentFactory: TransactionFactory + BatchFactory {

}

} // verus!
