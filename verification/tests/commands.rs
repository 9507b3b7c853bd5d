use alica_messages_client::command;
use alica_messages_client::command::state::read_entries;
use alica_messages_client::command::transaction::payload_text;
use alica_messages_client::commands::{evaluate_response, CommunicationError};
use alica_messages_client::communication;
use alica_messages_client::payloads;
use alica_messages_client::payloads::pipe_separated;
use alica_messages_client::payloads::TransactionPayload;
use alica_messages_client::sawtooth;
use alica_messages_client::sawtooth::messages::{Message, MessageType, StateEntry};

fn failure(text: &str) -> command::Error {
    command::Error::ExecutionError(text.to_string())
}

fn entry(address: &str, data: &[u8]) -> StateEntry {
    StateEntry { address: address.to_string(), data: data.to_vec() }
}

fn reply(message_type: MessageType) -> Message {
    Message { message_type, correlation_id: "token".to_string(), content: vec![] }
}

#[test]
fn each_error_of_the_protocol_has_its_text() {
    let name = |text: &str| text.to_string();
    let cases = vec![
        (sawtooth::Error::RequestError, "Failed to send request"),
        (sawtooth::Error::ResponseError, "Failed to evaluate response"),
        (
            sawtooth::Error::WrongResponse(name("A_RESPONSE"), name("B_RESPONSE")),
            "Got wrong response, expected A_RESPONSE but was B_RESPONSE",
        ),
        (sawtooth::Error::SerializationError(name("Request")), "Failed to serialize Request"),
        (sawtooth::Error::DeserializationError, "Failed to deserialize response"),
        (sawtooth::Error::SigningError(name("Batch Header")), "Failed to sign Batch Header"),
        (
            sawtooth::Error::KeyError(name("Transaction Header")),
            "Failed to fetch public key for Transaction Header",
        ),
        (sawtooth::Error::InvalidBatch, "Invalid batch"),
        (sawtooth::Error::InternalError, "Internal error when submitting batch"),
        (sawtooth::Error::FullQueue, "Batch request queue of targeted validator is full!"),
        (sawtooth::Error::BatchStatusUnset, "No status set for batch"),
    ];
    for (error, text) in cases {
        assert_eq!(command::Error::from(error), failure(text));
    }
}

#[test]
fn each_error_of_a_payload_has_its_text() {
    assert_eq!(
        command::Error::from(payloads::Error::InvalidPayload("broken".to_string())),
        failure("broken")
    );
    assert_eq!(
        command::Error::from(payloads::Error::InvalidTimestamp),
        failure("Invalid timestamp supplied")
    );
}

#[test]
fn entries_of_the_namespace_are_read_in_their_order() {
    let entries = vec![
        entry("abcdef01", b"a1|t1|hello|100"),
        entry("ffffff02", b"not a payload"),
        entry("abcdef03", b"a2|t2|bye|200"),
        entry("abcde", b"too short an address"),
    ];
    let format = pipe_separated::Format::default();
    assert_eq!(
        read_entries(&entries, "abcdef", &format),
        Ok(vec![
            TransactionPayload::new("a1", "t1", b"hello", 100),
            TransactionPayload::new("a2", "t2", b"bye", 200),
        ])
    );
    assert_eq!(read_entries(&entries, "000000", &format), Ok(vec![]));
    assert_eq!(read_entries(&Vec::new(), "abcdef", &format), Ok(vec![]));
}

#[test]
fn the_first_entry_that_cannot_be_read_fails_the_listing() {
    let entries = vec![
        entry("abcdef01", b"a1|t1|hello|100"),
        entry("abcdef02", b"a1|t1|hello|soon"),
        entry("abcdef03", b"not a payload"),
    ];
    let format = pipe_separated::Format::default();
    assert_eq!(read_entries(&entries, "abcdef", &format), Err(failure("Invalid timestamp supplied")));
    let entries = vec![entry("abcdef03", b"not a payload"), entry("abcdef02", b"a|t|m|soon")];
    assert_eq!(
        read_entries(&entries, "abcdef", &format),
        Err(failure("Payload does not consist of four fields"))
    );
    assert_eq!(read_entries(&entries, "", &format), read_entries(&entries, "abcdef", &format));
}

#[test]
fn the_payload_of_a_transaction_is_shown_as_text() {
    assert_eq!(payload_text(b"a1|t1|hello|100"), Ok("a1|t1|hello|100".to_string()));
    assert_eq!(payload_text(b""), Ok(String::new()));
    assert_eq!(payload_text(&[0xff]), Err(failure("Could no parse payload as UTF8 String")));
}

#[test]
fn a_reply_is_worth_its_content_or_one_error() {
    let expected = MessageType::ClientStateListResponse;
    let right = reply(MessageType::ClientStateListResponse);
    let wrong = reply(MessageType::ClientBatchSubmitResponse);
    assert_eq!(communication::parse_response(&right, &expected, Some(3u8)), Ok(3u8));
    assert_eq!(
        communication::parse_response::<u8>(&right, &expected, None),
        Err(communication::Error::ClientError)
    );
    assert_eq!(
        communication::parse_response(&wrong, &expected, Some(3u8)),
        Err(communication::Error::ClientError)
    );
}

#[test]
fn a_call_is_evaluated_by_reply_kind_and_content() {
    let expected = MessageType::ClientTransactionListResponse;
    let right = reply(MessageType::ClientTransactionListResponse);
    let wrong = reply(MessageType::ClientStateListResponse);
    assert_eq!(evaluate_response(Some(&right), &expected, Some(3u8)), Ok(3u8));
    assert_eq!(
        evaluate_response::<u8>(Some(&right), &expected, None),
        Err(CommunicationError::InvalidResponse)
    );
    assert_eq!(
        evaluate_response(Some(&wrong), &expected, Some(3u8)),
        Err(CommunicationError::WrongResponse)
    );
    assert_eq!(
        evaluate_response::<u8>(Some(&wrong), &expected, None),
        Err(CommunicationError::WrongResponse)
    );
    assert_eq!(
        evaluate_response(None, &expected, Some(3u8)),
        Err(CommunicationError::ValidatorNotReachable)
    );
}
