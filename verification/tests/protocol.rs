use alica_messages_client::family::TransactionFamily;
use alica_messages_client::helper::calculate_checksum;
use alica_messages_client::payloads::TransactionPayload;
use alica_messages_client::sawtooth::communication::{
    batch_submission_outcome, batch_submit_request, conclude_batch_submission, conclude_state_list,
    conclude_transaction_list, parse_response, read_response, validate_response, Exchange,
    Operation, TransportEvent,
};
use alica_messages_client::sawtooth::factory::GeneralPurposeComponentFactory;
use alica_messages_client::sawtooth::messages::{
    Batch, BatchHeader, BatchSubmitStatus, ClientBatchSubmitRequest, Message, MessageType,
    StateEntry, Transaction, TransactionHeader,
};
use alica_messages_client::sawtooth::{BatchFactory, ComponentFactory, Error, TransactionFactory};
use std::cell::Cell;

/// A factory whose signer and encoder are stand-ins: a header is encoded as
/// its nonce-free fields joined by commas, and signed by prefixing `sig:`.
struct StubFactory {
    parts: GeneralPurposeComponentFactory,
    public_key: Option<String>,
    signs: bool,
}

impl StubFactory {
    fn new() -> Self {
        StubFactory {
            parts: GeneralPurposeComponentFactory::new(TransactionFamily::new(
                "alica_messages",
                &["0.1.0".to_string()],
            )),
            public_key: Some("02ab".to_string()),
            signs: true,
        }
    }

    fn sign(&self, bytes: &[u8]) -> Option<String> {
        if self.signs {
            Some(format!("sig:{}", String::from_utf8_lossy(bytes)))
        } else {
            None
        }
    }
}

impl TransactionFactory for StubFactory {
    fn create_transaction_for(
        &self,
        message: &TransactionPayload,
        header: &TransactionHeader,
    ) -> Result<Transaction, Error> {
        let encoded = format!("{},{}", header.inputs[0], header.payload_sha512).into_bytes();
        let signature = self.sign(&encoded);
        self.parts.create_transaction_for(message, Some(encoded), signature)
    }

    fn create_transaction_header_for(
        &self,
        message: &TransactionPayload,
    ) -> Result<TransactionHeader, Error> {
        self.parts.create_transaction_header_for(message, self.public_key.clone())
    }
}

impl BatchFactory for StubFactory {
    fn create_batch_for(
        &self,
        transactions: &Vec<Transaction>,
        header: &BatchHeader,
    ) -> Result<Batch, Error> {
        let encoded = header.transaction_ids.join(";").into_bytes();
        let signature = self.sign(&encoded);
        self.parts.create_batch_for(transactions, Some(encoded), signature)
    }

    fn create_batch_header_for(&self, transactions: &Vec<Transaction>) -> Result<BatchHeader, Error> {
        self.parts.create_batch_header_for(transactions, self.public_key.clone())
    }
}

impl ComponentFactory for StubFactory {}

/// A client whose validator is a stand-in that answers every submission
/// with one status, and counts the requests it gets.
struct StubClient {
    factory: StubFactory,
    status: BatchSubmitStatus,
    reply_type: MessageType,
    requests: Cell<usize>,
}

impl StubClient {
    fn answering(status: BatchSubmitStatus) -> Self {
        StubClient {
            factory: StubFactory::new(),
            status,
            reply_type: MessageType::ClientBatchSubmitResponse,
            requests: Cell::new(0),
        }
    }

    fn create_batch(&self, contents: &[&TransactionPayload]) -> Result<(), Error> {
        let request = batch_submit_request(&self.factory, contents)?;
        let encoded = vec![request.batches.len() as u8];
        let (exchange, message) =
            Exchange::Idle.start(Operation::CreateBatch.request_type(), Some(encoded));
        let message = message.unwrap();
        self.requests.set(self.requests.get() + 1);
        let exchange = exchange.advance(TransportEvent::Sent);
        let exchange = exchange.advance(TransportEvent::Reply(Message {
            message_type: self.reply_type.clone(),
            correlation_id: message.correlation_id.clone(),
            content: vec![],
        }));
        let response = exchange.outcome().unwrap()?;
        conclude_batch_submission(&response, Some(self.status))
    }
}

fn sample() -> TransactionPayload {
    TransactionPayload::new("a1", "t1", b"hello", 100)
}

fn reply(message_type: MessageType, token: &str) -> Message {
    Message { message_type, correlation_id: token.to_string(), content: vec![1, 2, 3] }
}

#[test]
fn a_request_holds_one_batch_with_one_transaction_for_each_payload() {
    let factory = StubFactory::new();
    let first = sample();
    let second = TransactionPayload::new("a2", "t2", b"bye", 200);
    let request: ClientBatchSubmitRequest =
        batch_submit_request(&factory, &[&first, &second, &first]).unwrap();
    assert_eq!(request.batches.len(), 1);
    let batch = &request.batches[0];
    assert_eq!(batch.transactions.len(), 3);
    assert_eq!(batch.transactions[0].payload, b"a1|t1|hello|100".to_vec());
    assert_eq!(batch.transactions[1].payload, b"a2|t2|bye|200".to_vec());
    assert_eq!(batch.transactions[2].payload, b"a1|t1|hello|100".to_vec());
    let address = format!(
        "{}{}",
        &calculate_checksum(b"alica_messages")[..6],
        &calculate_checksum(b"a1t1100")[..64]
    );
    let header = format!("{},{}", address, calculate_checksum(b"a1|t1|hello|100"));
    assert_eq!(batch.transactions[0].header, header.clone().into_bytes());
    assert_eq!(batch.transactions[0].header_signature, format!("sig:{}", header));
    let ids: Vec<String> =
        batch.transactions.iter().map(|t| t.header_signature.clone()).collect();
    assert_eq!(batch.header, ids.join(";").into_bytes());
    assert_eq!(batch.header_signature, format!("sig:{}", ids.join(";")));
}

#[test]
fn a_request_for_no_payloads_holds_an_empty_batch() {
    let request = batch_submit_request(&StubFactory::new(), &[]).unwrap();
    assert_eq!(request.batches.len(), 1);
    assert!(request.batches[0].transactions.is_empty());
}

#[test]
fn a_request_can_be_built_through_a_trait_object() {
    let factory = StubFactory::new();
    let object: &dyn ComponentFactory = &factory;
    let first = sample();
    assert_eq!(batch_submit_request(object, &[&first]).unwrap().batches.len(), 1);
}

#[test]
fn the_first_error_of_the_factory_ends_the_request() {
    let mut factory = StubFactory::new();
    factory.public_key = None;
    let first = sample();
    assert_eq!(
        batch_submit_request(&factory, &[&first]),
        Err(Error::KeyError("Transaction Header".to_string()))
    );
    assert_eq!(
        batch_submit_request(&factory, &[]),
        Err(Error::KeyError("Batch Header".to_string()))
    );
    let mut factory = StubFactory::new();
    factory.signs = false;
    assert_eq!(
        batch_submit_request(&factory, &[&first]),
        Err(Error::SigningError("Transaction Header".to_string()))
    );
    assert_eq!(
        batch_submit_request(&factory, &[]),
        Err(Error::SigningError("Batch Header".to_string()))
    );
}

#[test]
fn each_call_has_its_request_and_its_reply() {
    assert_eq!(Operation::CreateBatch.request_type(), MessageType::ClientBatchSubmitRequest);
    assert_eq!(Operation::CreateBatch.response_type(), MessageType::ClientBatchSubmitResponse);
    assert_eq!(
        Operation::ListTransactions.request_type(),
        MessageType::ClientTransactionListRequest
    );
    assert_eq!(
        Operation::ListTransactions.response_type(),
        MessageType::ClientTransactionListResponse
    );
    assert_eq!(Operation::ListStateEntries.request_type(), MessageType::ClientStateListRequest);
    assert_eq!(Operation::ListStateEntries.response_type(), MessageType::ClientStateListResponse);
}

#[test]
fn kinds_of_message_have_the_names_of_the_protocol() {
    assert_eq!(MessageType::ClientBatchSubmitRequest.name(), "CLIENT_BATCH_SUBMIT_REQUEST");
    assert_eq!(MessageType::ClientBatchSubmitResponse.name(), "CLIENT_BATCH_SUBMIT_RESPONSE");
    assert_eq!(MessageType::ClientTransactionListRequest.name(), "CLIENT_TRANSACTION_LIST_REQUEST");
    assert_eq!(
        MessageType::ClientTransactionListResponse.name(),
        "CLIENT_TRANSACTION_LIST_RESPONSE"
    );
    assert_eq!(MessageType::ClientStateListRequest.name(), "CLIENT_STATE_LIST_REQUEST");
    assert_eq!(MessageType::ClientStateListResponse.name(), "CLIENT_STATE_LIST_RESPONSE");
    assert_eq!(MessageType::Other("PING_REQUEST".to_string()).name(), "PING_REQUEST");
    let kind = MessageType::Other("PING_REQUEST".to_string());
    assert_eq!(kind.duplicate(), kind);
}

#[test]
fn a_kind_is_built_from_its_name_in_its_proper_form() {
    let known = vec![
        MessageType::ClientBatchSubmitRequest,
        MessageType::ClientBatchSubmitResponse,
        MessageType::ClientTransactionListRequest,
        MessageType::ClientTransactionListResponse,
        MessageType::ClientStateListRequest,
        MessageType::ClientStateListResponse,
    ];
    for kind in known {
        assert_eq!(MessageType::from_name(&kind.name()), kind);
        assert!(kind.is_well_formed());
        assert!(!MessageType::Other(kind.name()).is_well_formed());
    }
    let other = MessageType::from_name("PING_REQUEST");
    assert_eq!(other, MessageType::Other("PING_REQUEST".to_string()));
    assert!(other.is_well_formed());
    assert_eq!(MessageType::from_name(""), MessageType::Other(String::new()));
    assert!(!MessageType::Other(String::new()).is_well_formed());
}

#[test]
fn a_call_starts_with_a_fresh_token() {
    let (exchange, message) =
        Exchange::Idle.start(MessageType::ClientStateListRequest, Some(vec![7, 8]));
    let message = message.unwrap();
    assert_eq!(message.message_type, MessageType::ClientStateListRequest);
    assert_eq!(message.content, vec![7, 8]);
    assert_eq!(exchange, Exchange::Sending(message.correlation_id.clone()));
    let token: Vec<char> = message.correlation_id.chars().collect();
    assert_eq!(token.len(), 36);
    for (i, c) in token.iter().enumerate() {
        if i == 8 || i == 13 || i == 18 || i == 23 {
            assert_eq!(*c, '-');
        } else {
            assert!(matches!(c, '0'..='9' | 'a'..='f'));
        }
    }
    let (_, other) = Exchange::Idle.start(MessageType::ClientStateListRequest, Some(vec![7, 8]));
    assert_ne!(other.unwrap().correlation_id, message.correlation_id);
}

#[test]
fn a_request_that_cannot_be_encoded_fails_the_call_at_once() {
    let (exchange, message) = Exchange::Idle.start(MessageType::ClientBatchSubmitRequest, None);
    assert_eq!(message, None);
    assert_eq!(exchange, Exchange::Failed(Error::SerializationError("Request".to_string())));
    assert_eq!(
        exchange.outcome(),
        Some(Err(Error::SerializationError("Request".to_string())))
    );
}

#[test]
fn only_an_idle_call_can_be_started() {
    let states = vec![
        Exchange::Sending("token".to_string()),
        Exchange::AwaitingReply("token".to_string()),
        Exchange::Completed(reply(MessageType::ClientStateListResponse, "token")),
        Exchange::Failed(Error::RequestError),
    ];
    for state in states {
        let (after, message) =
            state.clone().start(MessageType::ClientStateListRequest, Some(vec![1]));
        assert_eq!(after, state);
        assert_eq!(message, None);
    }
}

#[test]
fn a_call_completes_with_the_reply_that_carries_its_token() {
    let exchange = Exchange::Sending("token".to_string());
    assert_eq!(exchange.clone().outcome(), None);
    assert!(!exchange.is_settled());
    let exchange = exchange.advance(TransportEvent::Sent);
    assert_eq!(exchange, Exchange::AwaitingReply("token".to_string()));
    assert_eq!(exchange.clone().outcome(), None);
    assert!(!exchange.is_settled());
    let own = reply(MessageType::ClientBatchSubmitResponse, "token");
    let exchange = exchange.advance(TransportEvent::Reply(own.clone()));
    assert_eq!(exchange, Exchange::Completed(own.clone()));
    assert!(exchange.is_settled());
    assert!(!Exchange::Idle.is_settled());
    assert!(Exchange::Failed(Error::ResponseError).is_settled());
    assert_eq!(exchange.outcome(), Some(Ok(own)));
}

#[test]
fn a_reply_with_another_token_is_a_response_error() {
    let stray = reply(MessageType::ClientBatchSubmitResponse, "another");
    let exchange = Exchange::AwaitingReply("token".to_string()).advance(TransportEvent::Reply(stray));
    assert_eq!(exchange, Exchange::Failed(Error::ResponseError));
    assert!(exchange.is_settled());
    assert_eq!(exchange.outcome(), Some(Err(Error::ResponseError)));
}

#[test]
fn a_request_that_is_not_taken_is_a_request_error() {
    let exchange = Exchange::Sending("token".to_string()).advance(TransportEvent::SendFailed);
    assert_eq!(exchange, Exchange::Failed(Error::RequestError));
    assert_eq!(exchange.outcome(), Some(Err(Error::RequestError)));
}

#[test]
fn a_wait_that_breaks_off_is_a_response_error() {
    let exchange = Exchange::Sending("token".to_string())
        .advance(TransportEvent::Sent)
        .advance(TransportEvent::ReplyFailed);
    assert_eq!(exchange, Exchange::Failed(Error::ResponseError));
    assert_eq!(exchange.outcome(), Some(Err(Error::ResponseError)));
}

#[test]
fn events_out_of_place_change_nothing() {
    let own = reply(MessageType::ClientBatchSubmitResponse, "token");
    let events = || {
        vec![
            TransportEvent::Sent,
            TransportEvent::SendFailed,
            TransportEvent::Reply(own.clone()),
            TransportEvent::ReplyFailed,
        ]
    };
    for event in events() {
        assert_eq!(Exchange::Idle.advance(event), Exchange::Idle);
    }
    for event in events() {
        let done = Exchange::Completed(own.clone());
        assert_eq!(done.clone().advance(event), done);
    }
    for event in events() {
        let failed = Exchange::Failed(Error::RequestError);
        assert_eq!(failed.clone().advance(event), failed);
    }
    let sending = Exchange::Sending("token".to_string());
    assert_eq!(sending.clone().advance(TransportEvent::Reply(own.clone())), sending);
    assert_eq!(sending.clone().advance(TransportEvent::ReplyFailed), sending);
    let waiting = Exchange::AwaitingReply("token".to_string());
    assert_eq!(waiting.clone().advance(TransportEvent::Sent), waiting);
    assert_eq!(waiting.clone().advance(TransportEvent::SendFailed), waiting);
}

#[test]
fn a_reply_of_the_expected_kind_is_valid() {
    let response = reply(MessageType::ClientStateListResponse, "token");
    assert_eq!(validate_response(&response, &MessageType::ClientStateListResponse), Ok(()));
    let response = reply(MessageType::Other("CLIENT_STATE_LIST_RESPONSE".to_string()), "token");
    assert_eq!(validate_response(&response, &MessageType::ClientStateListResponse), Ok(()));
}

#[test]
fn a_reply_of_another_kind_is_rejected_with_both_names() {
    let expected = MessageType::ClientBatchSubmitResponse;
    let others = vec![
        MessageType::ClientBatchSubmitRequest,
        MessageType::ClientTransactionListRequest,
        MessageType::ClientTransactionListResponse,
        MessageType::ClientStateListRequest,
        MessageType::ClientStateListResponse,
        MessageType::Other("PING_REQUEST".to_string()),
        MessageType::Other(String::new()),
    ];
    for other in others {
        let name = other.name();
        assert_ne!(name, "CLIENT_BATCH_SUBMIT_RESPONSE");
        assert_eq!(
            validate_response(&reply(other, "token"), &expected),
            Err(Error::WrongResponse("CLIENT_BATCH_SUBMIT_RESPONSE".to_string(), name))
        );
    }
}

#[test]
fn content_that_was_not_decoded_is_a_deserialization_error() {
    assert_eq!(parse_response(Some(5u8)), Ok(5u8));
    assert_eq!(parse_response::<u8>(None), Err(Error::DeserializationError));
}

#[test]
fn the_kind_is_checked_before_the_content() {
    let wrong = reply(MessageType::ClientStateListResponse, "token");
    let expected = MessageType::ClientTransactionListResponse;
    let rejected = Err(Error::WrongResponse(
        "CLIENT_TRANSACTION_LIST_RESPONSE".to_string(),
        "CLIENT_STATE_LIST_RESPONSE".to_string(),
    ));
    assert_eq!(read_response(&wrong, &expected, Some(1u8)), rejected);
    assert_eq!(read_response::<u8>(&wrong, &expected, None), rejected);
    let right = reply(MessageType::ClientTransactionListResponse, "token");
    assert_eq!(read_response(&right, &expected, Some(1u8)), Ok(1u8));
    assert_eq!(read_response::<u8>(&right, &expected, None), Err(Error::DeserializationError));
}

#[test]
fn each_status_has_its_outcome() {
    assert_eq!(batch_submission_outcome(BatchSubmitStatus::Accepted), Ok(()));
    assert_eq!(
        batch_submission_outcome(BatchSubmitStatus::StatusUnset),
        Err(Error::BatchStatusUnset)
    );
    assert_eq!(batch_submission_outcome(BatchSubmitStatus::InvalidBatch), Err(Error::InvalidBatch));
    assert_eq!(
        batch_submission_outcome(BatchSubmitStatus::InternalError),
        Err(Error::InternalError)
    );
    assert_eq!(batch_submission_outcome(BatchSubmitStatus::QueueFull), Err(Error::FullQueue));
}

#[test]
fn a_submission_ends_with_the_status_of_the_validator() {
    let right = reply(MessageType::ClientBatchSubmitResponse, "token");
    assert_eq!(conclude_batch_submission(&right, Some(BatchSubmitStatus::Accepted)), Ok(()));
    assert_eq!(
        conclude_batch_submission(&right, Some(BatchSubmitStatus::QueueFull)),
        Err(Error::FullQueue)
    );
    assert_eq!(conclude_batch_submission(&right, None), Err(Error::DeserializationError));
    let wrong = reply(MessageType::ClientStateListResponse, "token");
    assert_eq!(
        conclude_batch_submission(&wrong, Some(BatchSubmitStatus::Accepted)),
        Err(Error::WrongResponse(
            "CLIENT_BATCH_SUBMIT_RESPONSE".to_string(),
            "CLIENT_STATE_LIST_RESPONSE".to_string()
        ))
    );
}

#[test]
fn a_listing_hands_on_what_was_decoded() {
    let transactions = vec![
        Transaction { header: vec![1], header_signature: "b".to_string(), payload: vec![2] },
        Transaction { header: vec![3], header_signature: "a".to_string(), payload: vec![4] },
    ];
    let right = reply(MessageType::ClientTransactionListResponse, "token");
    assert_eq!(
        conclude_transaction_list(&right, Some(transactions.clone())),
        Ok(transactions.clone())
    );
    assert_eq!(conclude_transaction_list(&right, None), Err(Error::DeserializationError));
    let entries = vec![
        StateEntry { address: "ff".to_string(), data: vec![1] },
        StateEntry { address: "00".to_string(), data: vec![] },
    ];
    let state = reply(MessageType::ClientStateListResponse, "token");
    assert_eq!(conclude_state_list(&state, Some(entries.clone())), Ok(entries.clone()));
    assert_eq!(conclude_state_list(&state, None), Err(Error::DeserializationError));
    assert_eq!(
        conclude_state_list(&right, Some(entries)),
        Err(Error::WrongResponse(
            "CLIENT_STATE_LIST_RESPONSE".to_string(),
            "CLIENT_TRANSACTION_LIST_RESPONSE".to_string()
        ))
    );
    assert_eq!(
        conclude_transaction_list(&state, Some(transactions)),
        Err(Error::WrongResponse(
            "CLIENT_TRANSACTION_LIST_RESPONSE".to_string(),
            "CLIENT_STATE_LIST_RESPONSE".to_string()
        ))
    );
}

#[test]
fn a_submission_that_the_validator_takes_succeeds() {
    let client = StubClient::answering(BatchSubmitStatus::Accepted);
    let payload = sample();
    assert_eq!(client.create_batch(&[&payload]), Ok(()));
    assert_eq!(client.requests.get(), 1);
}

#[test]
fn a_submission_to_a_full_queue_fails_and_is_not_tried_again() {
    let client = StubClient::answering(BatchSubmitStatus::QueueFull);
    let payload = sample();
    assert_eq!(client.create_batch(&[&payload]), Err(Error::FullQueue));
    assert_eq!(client.requests.get(), 1);
}

#[test]
fn every_other_status_fails_the_submission_once() {
    let cases = vec![
        (BatchSubmitStatus::StatusUnset, Error::BatchStatusUnset),
        (BatchSubmitStatus::InvalidBatch, Error::InvalidBatch),
        (BatchSubmitStatus::InternalError, Error::InternalError),
    ];
    let payload = sample();
    for (status, error) in cases {
        let client = StubClient::answering(status);
        assert_eq!(client.create_batch(&[&payload]), Err(error));
        assert_eq!(client.requests.get(), 1);
    }
}

#[test]
fn a_submission_answered_by_another_kind_of_reply_fails() {
    let mut client = StubClient::answering(BatchSubmitStatus::Accepted);
    client.reply_type = MessageType::ClientStateListResponse;
    let payload = sample();
    assert_eq!(
        client.create_batch(&[&payload]),
        Err(Error::WrongResponse(
            "CLIENT_BATCH_SUBMIT_RESPONSE".to_string(),
            "CLIENT_STATE_LIST_RESPONSE".to_string()
        ))
    );
}
