//! The commands of the client: what they report when they fail, and the
//! parts of their work that need no validator.

pub mod state;
pub mod transaction;

use crate::payloads;
use crate::sawtooth;
use vstd::prelude::*;
use vstd::std_specs::convert::FromSpecImpl;
use vstd::string::StringExecFns;

verus! {

/// Why a command failed.
#[derive(Debug, Clone, PartialEq, Eq)]
pub enum Error {
    /// The command could not be carried out; the text says why.
    ExecutionError(String),
}

impl Error {
    /// The text that says why the command failed.
    pub open spec fn message(&self) -> Seq<char> {
        match self {
            Error::ExecutionError(message) => message@,
        }
    }
}

/// What a command comes to.
pub type ExecutionResult = Result<(), Error>;

/// Something that a user can ask of a validator.
pub trait SawtoothCommand {
    /// Carries the command out.
    fn execute(&self) -> ExecutionResult;
}

/// What a command says of an error of the protocol. Each kind of error has a
/// text of its own, and the names that the error carries are part of it.
pub open spec fn explanation(error: sawtooth::ErrorView) -> Seq<char> {
    match error {
        sawtooth::ErrorView::RequestError => "Failed to send request"@,
        sawtooth::ErrorView::ResponseError => "Failed to evaluate response"@,
        sawtooth::ErrorView::WrongResponse(expected, actual) => "Got wrong response, expected "@
            + expected + " but was "@ + actual,
        sawtooth::ErrorView::SerializationError(component) => "Failed to serialize "@ + component,
        sawtooth::ErrorView::DeserializationError => "Failed to deserialize response"@,
        sawtooth::ErrorView::SigningError(component) => "Failed to sign "@ + component,
        sawtooth::ErrorView::KeyError(component) => "Failed to fetch public key for "@ + component,
        sawtooth::ErrorView::InvalidBatch => "Invalid batch"@,
        sawtooth::ErrorView::InternalError => "Internal error when submitting batch"@,
        sawtooth::ErrorView::FullQueue => "Batch request queue of targeted validator is full!"@,
        sawtooth::ErrorView::BatchStatusUnset => "No status set for batch"@,
    }
}

/// What a command says of a payload that could not be read.
pub open spec fn payload_explanation(error: payloads::ErrorView) -> Seq<char> {
    match error {
        payloads::ErrorView::InvalidPayload(reason) => reason,
        payloads::ErrorView::InvalidTimestamp => "Invalid timestamp supplied"@,
    }
}

impl FromSpecImpl<sawtooth::Error> for Error {
    open spec fn obeys_from_spec() -> bool {
        false
    }

    open spec fn from_spec(error: sawtooth::Error) -> Error {
        choose|failure: Error| failure.message() == explanation(error@)
    }
}

impl From<sawtooth::Error> for Error {
    /// The failure of a command that met `error`; its text is
    /// `explanation(error)`.
    fn from(error: sawtooth::Error) -> (failure: Error)
        ensures
            failure.message() == explanation(error@),
    {
        let message = match error {
            sawtooth::Error::RequestError => "Failed to send request".to_owned(),
            sawtooth::Error::ResponseError => "Failed to evaluate response".to_owned(),
            sawtooth::Error::WrongResponse(expected_response_type, actual_response_type) => {
                "Got wrong response, expected ".to_owned().concat(
                    expected_response_type.as_str(),
                ).concat(" but was ").concat(actual_response_type.as_str())
            },
            sawtooth::Error::SerializationError(component) => "Failed to serialize ".to_owned().concat(
                component.as_str(),
            ),
            sawtooth::Error::DeserializationError => "Failed to deserialize response".to_owned(),
            sawtooth::Error::SigningError(component) => "Failed to sign ".to_owned().concat(
                component.as_str(),
            ),
            sawtooth::Error::KeyError(component) => "Failed to fetch public key for ".to_owned().concat(
                component.as_str(),
            ),
            sawtooth::Error::InvalidBatch => "Invalid batch".to_owned(),
            sawtooth::Error::InternalError => "Internal error when submitting batch".to_owned(),
            sawtooth::Error::FullQueue => "Batch request queue of targeted validator is full!".to_owned(),
            sawtooth::Error::BatchStatusUnset => "No status set for batch".to_owned(),
        };
        Error::ExecutionError(message)
    }
}

impl FromSpecImpl<payloads::Error> for Error {
    open spec fn obeys_from_spec() -> bool {
        false
    }

    open spec fn from_spec(error: payloads::Error) -> Error {
        choose|failure: Error| failure.message() == payload_explanation(error@)
    }
}

impl From<payloads::Error> for Error {
    /// The failure of a command that met `error`; its text is
    /// `payload_explanation(error)`.
    fn from(error: payloads::Error) -> (failure: Error)
        ensures
            failure.message() == payload_explanation(error@),
    {
        let message = match error {
            payloads::Error::InvalidPayload(message) => message,
            payloads::Error::InvalidTimestamp => "Invalid timestamp supplied".to_owned(),
        };
        Error::ExecutionError(message)
    }
}

} // verus!
