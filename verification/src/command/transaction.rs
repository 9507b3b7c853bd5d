//! Listing the transactions that a validator holds.

use crate::command::Error;
use crate::text::text_from_bytes;
use vstd::prelude::*;
use vstd::utf8::{decode_utf8, valid_utf8};

verus! {

/// What the command says of a payload that is no text.
pub open spec fn payload_text_failure() -> Seq<char> {
    "Could no parse payload as UTF8 String"@
}

/// The payload of a transaction as text. A payload that is not valid UTF-8
/// fails the command.
pub fn payload_text(payload: &[u8]) -> (outcome: Result<String, Error>)
    ensures
        valid_utf8(payload@) ==> (outcome matches Ok(text) && text@ == decode_utf8(payload@)),
        !valid_utf8(payload@) ==> (outcome matches Err(failure) && failure.message()
            == payload_text_failure()),
{
    match text_from_bytes(payload) {
        Some(text) => Ok(text),
        None => Err(Error::ExecutionError("Could no parse payload as UTF8 String".to_owned())),
    }
}

} // verus!
