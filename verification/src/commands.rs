//! Commands that report a failure by its kind alone.

use crate::sawtooth::messages::{Message, MessageType};
use vstd::prelude::*;

verus! {

/// Why a command failed.
#[derive(Debug, Clone, Copy, PartialEq, Eq, Structural)]
pub enum CommunicationError {
    /// No request could be exchanged with the validator.
    ValidatorNotReachable,
    /// The reply's content could not be decoded.
    InvalidResponse,
    /// The reply is of another kind than expected.
    WrongResponse,
}

/// Something that a user can ask of a validator.
pub trait SawtoothCommand {
    /// Carries the command out.
    fn execute(&self) -> Result<(), CommunicationError>;
}

/// What a command makes of a call. `response` is the reply, `None` where the
/// call brought none; `decoded` is its decoded content, `None` where it could
/// not be decoded. Without a reply the validator was not reachable; a reply
/// of another kind than expected is a wrong response, whatever it holds; a
/// reply of the right kind is worth its decoded content.
pub open spec fn evaluated<T>(
    response: Option<Message>,
    expected: MessageType,
    decoded: Option<T>,
) -> Result<T, CommunicationError> {
    match response {
        None => Err(CommunicationError::ValidatorNotReachable),
        Some(response) => {
            if response.message_type@ != expected@ {
                Err(CommunicationError::WrongResponse)
            } else {
                match decoded {
                    None => Err(CommunicationError::InvalidResponse),
                    Some(value) => Ok(value),
                }
            }
        },
    }
}

/// What a command makes of a call; see `evaluated`.
pub fn evaluate_response<T>(response: Option<&Message>, expected: &MessageType, decoded: Option<T>) -> (outcome:
    Result<T, CommunicationError>)
    ensures
        outcome == evaluated(
            match response {
                Some(response) => Some(*response),
                None => None,
            },
            *expected,
            decoded,
        ),
{
    match response {
        None => Err(CommunicationError::ValidatorNotReachable),
        Some(response) => {
            if response.message_type.name() == expected.name() {
                match decoded {
                    Some(value) => Ok(value),
                    None => Err(CommunicationError::InvalidResponse),
                }
            } else {
                Err(CommunicationError::WrongResponse)
            }
        },
    }
}

} // verus!
