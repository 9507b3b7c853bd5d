//! The request/reply protocol with a validator.
//!
//! A call goes through four steps: the request is built, it is handed to the
//! transport, the reply is awaited, and the reply is read. The transport and
//! the encoding of messages are not part of this library. What the library
//! decides is which request is sent, what each outcome of the transport means
//! for the call, whether a reply is of the expected kind, and what its content
//! means for the caller.

use crate::helper::is_hex_digit;
use crate::payloads::TransactionPayload;
use crate::sawtooth::messages::{
    lemma_well_formed_has_name, Batch, BatchHeader, BatchSubmitStatus, ClientBatchSubmitRequest,
    Message, MessageType, MessageView, StateEntry, Transaction, TransactionHeader,
};
use crate::sawtooth::{ComponentFactory, Error, ErrorView};
use vstd::prelude::*;

verus! {

/// The name under which errors speak of a request.
pub open spec fn request_name() -> Seq<char> {
    "Request"@
}

/// Whether `text` has the form of a correlation token: thirty-two lower-case
/// hexadecimal digits in groups of eight, four, four, four and twelve, with a
/// hyphen between the groups.
pub open spec fn is_correlation_id(text: Seq<char>) -> bool {
    &&& text.len() == 36
    &&& forall|i: int|
        0 <= i < 36 ==> if i == 8 || i == 13 || i == 18 || i == 23 {
            #[trigger] text[i] == '-'
        } else {
            is_hex_digit(text[i])
        }
}

/// Calls `uuid::Uuid::new_v4` and turns the identifier into text with
/// `to_string`. The identifier is random, so the contract states only the
/// form of the text: hyphenated, in lower case. The crate offers no way to
/// learn that the operating system gave no random bytes: it stops the
/// process then.
#[verifier::external_body]
fn fresh_correlation_id() -> (id: String)
    ensures
        is_correlation_id(id@),
{
    uuid::Uuid::new_v4().to_string()
}

/// The three calls that a client makes.
#[derive(Debug, Clone, Copy, PartialEq, Eq, Structural)]
pub enum Operation {
    CreateBatch,
    ListTransactions,
    ListStateEntries,
}

impl Operation {
    /// The kind of the request that starts the call.
    pub open spec fn request(self) -> MessageType {
        match self {
            Operation::CreateBatch => MessageType::ClientBatchSubmitRequest,
            Operation::ListTransactions => MessageType::ClientTransactionListRequest,
            Operation::ListStateEntries => MessageType::ClientStateListRequest,
        }
    }

    /// The kind of the reply that answers the call.
    pub open spec fn response(self) -> MessageType {
        match self {
            Operation::CreateBatch => MessageType::ClientBatchSubmitResponse,
            Operation::ListTransactions => MessageType::ClientTransactionListResponse,
            Operation::ListStateEntries => MessageType::ClientStateListResponse,
        }
    }

    /// The kind of the request that starts the call.
    pub fn request_type(self) -> (kind: MessageType)
        ensures
            kind == self.request(),
    {
        match self {
            Operation::CreateBatch => MessageType::ClientBatchSubmitRequest,
            Operation::ListTransactions => MessageType::ClientTransactionListRequest,
            Operation::ListStateEntries => MessageType::ClientStateListRequest,
        }
    }

    /// The kind of the reply that answers the call.
    pub fn response_type(self) -> (kind: MessageType)
        ensures
            kind == self.response(),
    {
        match self {
            Operation::CreateBatch => MessageType::ClientBatchSubmitResponse,
            Operation::ListTransactions => MessageType::ClientTransactionListResponse,
            Operation::ListStateEntries => MessageType::ClientStateListResponse,
        }
    }
}

/// Whether `transaction` is what `factory` made of `message`: under some
/// header that the factory made for `message`, it made `transaction`.
pub open spec fn made_of<F: ComponentFactory + ?Sized>(
    factory: &F,
    message: TransactionPayload,
    transaction: Transaction,
) -> bool {
    exists|header: TransactionHeader|
        factory.makes_header(message, Ok(header)) && #[trigger] factory.makes_transaction(
            message,
            header,
            Ok(transaction),
        )
}

/// Whether `transactions` are what `factory` made of the first of
/// `contents`: one transaction for each payload, in the order of the
/// payloads.
pub open spec fn made_in_order<F: ComponentFactory + ?Sized>(
    factory: &F,
    contents: Seq<&TransactionPayload>,
    transactions: Seq<Transaction>,
) -> bool {
    &&& transactions.len() <= contents.len()
    &&& forall|i: int|
        0 <= i < transactions.len() ==> #[trigger] made_of(factory, *contents[i], transactions[i])
}

/// Whether `error` is what `factory` reported when it was to make the
/// transaction of `message`: for the header, or for the transaction under a
/// header that it had made.
pub open spec fn refused<F: ComponentFactory + ?Sized>(
    factory: &F,
    message: TransactionPayload,
    error: Error,
) -> bool {
    ||| factory.makes_header(message, Err(error))
    ||| exists|header: TransactionHeader|
        factory.makes_header(message, Ok(header)) && #[trigger] factory.makes_transaction(
            message,
            header,
            Err(error),
        )
}

/// Whether `outcome` is what `factory` made of `transactions` when it was to
/// batch them: the batch under some header that it made for them, or the
/// error that it reported for the header, or for the batch under a header
/// that it had made.
pub open spec fn batched<F: ComponentFactory + ?Sized>(
    factory: &F,
    transactions: Seq<Transaction>,
    outcome: Result<Batch, Error>,
) -> bool {
    ||| outcome matches Err(error) && factory.makes_batch_header(transactions, Err(error))
    ||| exists|header: BatchHeader|
        factory.makes_batch_header(transactions, Ok(header)) && #[trigger] factory.makes_batch(
            transactions,
            header,
            outcome,
        )
}

/// What building the request that submits `contents` comes to. The factory
/// makes one transaction for each payload, in the order of `contents`, each
/// under the header that it made for that payload. The first payload for
/// which it reports an error ends the work, and that error is the outcome.
/// Otherwise it batches the transactions, in their order, under the header
/// that it made for them; an error that it reports then is the outcome. The
/// request holds that one batch and nothing else.
pub open spec fn submission<F: ComponentFactory + ?Sized>(
    factory: &F,
    contents: Seq<&TransactionPayload>,
    outcome: Result<ClientBatchSubmitRequest, Error>,
) -> bool {
    exists|transactions: Seq<Transaction>| #[trigger]
        made_in_order(factory, contents, transactions) && match outcome {
            Ok(request) => {
                &&& transactions.len() == contents.len()
                &&& request.batches@.len() == 1
                &&& batched(factory, transactions, Ok(request.batches@[0]))
            },
            Err(error) => {
                if transactions.len() < contents.len() {
                    refused(factory, *contents[transactions.len() as int], error)
                } else {
                    batched(factory, transactions, Err(error))
                }
            },
        }
}

/// Builds the request that submits `contents`: one transaction for each
/// payload, in the order of `contents`, all of them in one batch. The first
/// error that the factory reports ends the work and is handed on.
pub fn batch_submit_request<F: ComponentFactory + ?Sized>(
    factory: &F,
    contents: &[&TransactionPayload],
) -> (outcome: Result<ClientBatchSubmitRequest, Error>)
    ensures
        submission(factory, contents@, outcome),
        outcome matches Ok(request) ==> request.batches@.len() == 1,
{
    let mut transactions: Vec<Transaction> = Vec::new();
    let mut i: usize = 0;
    while i < contents.len()
        invariant
            0 <= i <= contents@.len(),
            transactions@.len() == i,
            made_in_order(factory, contents@, transactions@),
        decreases contents@.len() - i,
    {
        let message = contents[i];
        let transaction_header = match factory.create_transaction_header_for(message) {
            Ok(header) => header,
            Err(error) => {
                assert(refused(factory, *contents@[i as int], error));
                return Err(error);
            },
        };
        let transaction = match factory.create_transaction_for(message, &transaction_header) {
            Ok(transaction) => transaction,
            Err(error) => {
                assert(refused(factory, *contents@[i as int], error));
                return Err(error);
            },
        };
        assert(made_of(factory, *contents@[i as int], transaction));
        transactions.push(transaction);
        i += 1;
    }
    let batch_header = match factory.create_batch_header_for(&transactions) {
        Ok(header) => header,
        Err(error) => {
            assert(batched(factory, transactions@, Err::<Batch, Error>(error)));
            return Err(error);
        },
    };
    let batch = match factory.create_batch_for(&transactions, &batch_header) {
        Ok(batch) => batch,
        Err(error) => {
            assert(batched(factory, transactions@, Err::<Batch, Error>(error)));
            return Err(error);
        },
    };
    assert(batched(factory, transactions@, Ok::<Batch, Error>(batch)));
    let mut batches: Vec<Batch> = Vec::new();
    batches.push(batch);
    Ok(ClientBatchSubmitRequest { batches })
}

/// Where a call stands.
#[derive(Debug, Clone, PartialEq, Eq)]
pub enum Exchange {
    /// Nothing was sent yet.
    Idle,
    /// The request was handed to the transport under this token.
    Sending(String),
    /// The transport took the request; the reply with this token is awaited.
    AwaitingReply(String),
    /// The reply came.
    Completed(Message),
    /// The call failed.
    Failed(Error),
}

/// What the transport reports of a call.
#[derive(Debug, Clone, PartialEq, Eq)]
pub enum TransportEvent {
    /// The transport took the request.
    Sent,
    /// The transport could not take the request.
    SendFailed,
    /// A reply arrived.
    Reply(Message),
    /// The wait for the reply broke off.
    ReplyFailed,
}

/// A call's state as plain values.
pub enum ExchangeView {
    Idle,
    Sending(Seq<char>),
    AwaitingReply(Seq<char>),
    Completed(MessageView),
    Failed(ErrorView),
}

/// A transport's report as plain values.
pub enum TransportEventView {
    Sent,
    SendFailed,
    Reply(MessageView),
    ReplyFailed,
}

impl View for Exchange {
    type V = ExchangeView;

    open spec fn view(&self) -> ExchangeView {
        match self {
            Exchange::Idle => ExchangeView::Idle,
            Exchange::Sending(token) => ExchangeView::Sending(token@),
            Exchange::AwaitingReply(token) => ExchangeView::AwaitingReply(token@),
            Exchange::Completed(reply) => ExchangeView::Completed(reply@),
            Exchange::Failed(error) => ExchangeView::Failed(error@),
        }
    }
}

impl View for TransportEvent {
    type V = TransportEventView;

    open spec fn view(&self) -> TransportEventView {
        match self {
            TransportEvent::Sent => TransportEventView::Sent,
            TransportEvent::SendFailed => TransportEventView::SendFailed,
            TransportEvent::Reply(reply) => TransportEventView::Reply(reply@),
            TransportEvent::ReplyFailed => TransportEventView::ReplyFailed,
        }
    }
}

impl ExchangeView {
    /// Whether the call is over.
    pub open spec fn settled(self) -> bool {
        self is Completed || self is Failed
    }

    /// The state after `event`. A request that the transport does not take
    /// fails the call with `RequestError`; a wait that breaks off fails it
    /// with `ResponseError`. The reply that the transport resolves the wait
    /// with completes the call if it carries the call's token; one that
    /// carries another token answers some other request, so the call has no
    /// reply and fails with `ResponseError`. An event that is out of place
    /// changes nothing, and so does any event once the call is over.
    pub open spec fn after(self, event: TransportEventView) -> ExchangeView {
        match (self, event) {
            (ExchangeView::Sending(token), TransportEventView::Sent) => ExchangeView::AwaitingReply(
                token,
            ),
            (ExchangeView::Sending(_), TransportEventView::SendFailed) => ExchangeView::Failed(
                ErrorView::RequestError,
            ),
            (ExchangeView::AwaitingReply(_), TransportEventView::ReplyFailed) => ExchangeView::Failed(
                ErrorView::ResponseError,
            ),
            (ExchangeView::AwaitingReply(token), TransportEventView::Reply(reply)) => {
                if reply.correlation_id == token {
                    ExchangeView::Completed(reply)
                } else {
                    ExchangeView::Failed(ErrorView::ResponseError)
                }
            },
            _ => self,
        }
    }

    /// The state after each of `events`, in their order.
    pub open spec fn after_all(self, events: Seq<TransportEventView>) -> ExchangeView
        decreases events.len(),
    {
        if events.len() == 0 {
            self
        } else {
            self.after_all(events.drop_last()).after(events.last())
        }
    }

    /// What the call hands to its caller once it is over.
    pub open spec fn outcome(self) -> Option<Result<MessageView, ErrorView>> {
        match self {
            ExchangeView::Completed(reply) => Some(Ok(reply)),
            ExchangeView::Failed(error) => Some(Err(error)),
            _ => None,
        }
    }
}

/// The outcome of a call, as plain values.
pub open spec fn reply_view(outcome: Option<Result<Message, Error>>) -> Option<
    Result<MessageView, ErrorView>,
> {
    match outcome {
        Some(Ok(reply)) => Some(Ok(reply@)),
        Some(Err(error)) => Some(Err(error@)),
        None => None,
    }
}

impl Exchange {
    /// Starts a call of kind `request_type` whose encoded request is
    /// `request`, `None` standing for a request that could not be encoded.
    /// Such a call fails at once with a `SerializationError`. Otherwise the
    /// call gets a fresh token, and the message to transmit is handed out.
    /// Only a call that is idle can be started: any other stays as it is,
    /// and there is nothing to transmit.
    pub fn start(self, request_type: MessageType, request: Option<Vec<u8>>) -> (started: (
        Exchange,
        Option<Message>,
    ))
        ensures
            !(self@ is Idle) ==> started.0@ == self@ && started.1 is None,
            self@ is Idle && request is None ==> started.0@ == ExchangeView::Failed(
                ErrorView::SerializationError(request_name()),
            ) && started.1 is None,
            self@ is Idle ==> (request matches Some(content) ==> (started.1 matches Some(message)
                && message@ == (MessageView {
                message_type: request_type@,
                correlation_id: message.correlation_id@,
                content: content@,
            }) && is_correlation_id(message.correlation_id@) && started.0@ == ExchangeView::Sending(
                message.correlation_id@,
            ))),
    {
        match self {
            Exchange::Idle => match request {
                None => (Exchange::Failed(Error::SerializationError("Request".to_owned())), None),
                Some(content) => {
                    let correlation_id = fresh_correlation_id();
                    let token = correlation_id.clone();
                    (
                        Exchange::Sending(token),
                        Some(Message { message_type: request_type, correlation_id, content }),
                    )
                },
            },
            other => (other, None),
        }
    }

    /// The state after `event`.
    pub fn advance(self, event: TransportEvent) -> (next: Exchange)
        ensures
            next@ == self@.after(event@),
    {
        match self {
            Exchange::Sending(token) => match event {
                TransportEvent::Sent => Exchange::AwaitingReply(token),
                TransportEvent::SendFailed => Exchange::Failed(Error::RequestError),
                _ => Exchange::Sending(token),
            },
            Exchange::AwaitingReply(token) => match event {
                TransportEvent::ReplyFailed => Exchange::Failed(Error::ResponseError),
                TransportEvent::Reply(reply) => {
                    if reply.correlation_id == token {
                        Exchange::Completed(reply)
                    } else {
                        Exchange::Failed(Error::ResponseError)
                    }
                },
                _ => Exchange::AwaitingReply(token),
            },
            other => other,
        }
    }

    /// Whether the call is over.
    pub fn is_settled(&self) -> (settled: bool)
        ensures
            settled == self@.settled(),
    {
        match self {
            Exchange::Completed(_) => true,
            Exchange::Failed(_) => true,
            _ => false,
        }
    }

    /// What the call hands to its caller: the reply or the error once the
    /// call is over, nothing before.
    pub fn outcome(self) -> (outcome: Option<Result<Message, Error>>)
        ensures
            reply_view(outcome) == self@.outcome(),
    {
        match self {
            Exchange::Completed(reply) => Some(Ok(reply)),
            Exchange::Failed(error) => Some(Err(error)),
            _ => None,
        }
    }
}

/// A call that is over stays as it is, whatever the transport reports.
pub proof fn lemma_settled_stays(state: ExchangeView, events: Seq<TransportEventView>)
    requires
        state.settled(),
    ensures
        state.after_all(events) == state,
    decreases events.len(),
{
    if events.len() > 0 {
        lemma_settled_stays(state, events.drop_last());
    }
}

/// A call completes only with a reply that carries its token, and only after
/// the transport took the request.
pub proof fn lemma_completed_by_own_reply(state: ExchangeView, event: TransportEventView)
    requires
        !state.settled(),
        state.after(event) is Completed,
    ensures
        state is AwaitingReply,
        event == TransportEventView::Reply(state.after(event)->Completed_0),
        state.after(event)->Completed_0.correlation_id == state->AwaitingReply_0,
{
}

/// A call fails with `RequestError` exactly where the transport did not take
/// the request, and with `ResponseError` exactly where the wait broke off or
/// was resolved with a reply that carries another token. It fails in no
/// other way.
pub proof fn lemma_failure_cause(state: ExchangeView, event: TransportEventView)
    requires
        !state.settled(),
    ensures
        state.after(event) == ExchangeView::Failed(ErrorView::RequestError) <==> state is Sending
            && event is SendFailed,
        state.after(event) == ExchangeView::Failed(ErrorView::ResponseError) <==> (
        state matches ExchangeView::AwaitingReply(token) && (event is ReplyFailed || (
        event matches TransportEventView::Reply(reply) && reply.correlation_id != token))),
        state.after(event) is Failed ==> state.after(event) == ExchangeView::Failed(
            ErrorView::RequestError,
        ) || state.after(event) == ExchangeView::Failed(ErrorView::ResponseError),
{
}

/// Once the transport took the request, whatever it reports next of the
/// reply ends the call: there is no state in which the call goes on waiting
/// after the wait was resolved.
pub proof fn lemma_reply_settles(token: Seq<char>, event: TransportEventView)
    requires
        event is Reply || event is ReplyFailed,
    ensures
        ExchangeView::AwaitingReply(token).after(event).settled(),
{
}

/// Checks that `response` is of the kind `expected_type`. A reply of another
/// kind is rejected with the names of both kinds, the expected one first.
/// The two names differ, and the name of a kind in its proper form is not
/// empty, so the error tells the two kinds apart.
pub fn validate_response(response: &Message, expected_type: &MessageType) -> (outcome: Result<
    (),
    Error,
>)
    ensures
        response.message_type@ == expected_type@ ==> outcome is Ok,
        response.message_type@ != expected_type@ ==> (outcome matches Err(error) && error@
            == ErrorView::WrongResponse(expected_type@, response.message_type@)),
        outcome matches Err(Error::WrongResponse(expected, actual)) ==> {
            &&& expected@ != actual@
            &&& expected_type.well_formed() ==> expected@.len() > 0
            &&& response.message_type.well_formed() ==> actual@.len() > 0
        },
{
    proof {
        if expected_type.well_formed() {
            lemma_well_formed_has_name(*expected_type);
        }
        if response.message_type.well_formed() {
            lemma_well_formed_has_name(response.message_type);
        }
    }
    let expected = expected_type.name();
    let actual = response.message_type.name();
    if actual == expected {
        Ok(())
    } else {
        Err(Error::WrongResponse(expected, actual))
    }
}

/// What came of decoding a reply's content: the decoded value, or a
/// `DeserializationError` where there is none.
pub fn parse_response<T>(decoded: Option<T>) -> (outcome: Result<T, Error>)
    ensures
        decoded matches Some(value) ==> outcome == Ok::<T, Error>(value),
        decoded is None ==> outcome == Err::<T, Error>(Error::DeserializationError),
{
    match decoded {
        Some(value) => Ok(value),
        None => Err(Error::DeserializationError),
    }
}

/// What a validator's status means for the caller: `Accepted` is success,
/// every other status is an error of its own.
pub open spec fn status_outcome(status: BatchSubmitStatus) -> Result<(), Error> {
    match status {
        BatchSubmitStatus::Accepted => Ok(()),
        BatchSubmitStatus::StatusUnset => Err(Error::BatchStatusUnset),
        BatchSubmitStatus::InvalidBatch => Err(Error::InvalidBatch),
        BatchSubmitStatus::InternalError => Err(Error::InternalError),
        BatchSubmitStatus::QueueFull => Err(Error::FullQueue),
    }
}

/// What a validator's status means for the caller.
pub fn batch_submission_outcome(status: BatchSubmitStatus) -> (outcome: Result<(), Error>)
    ensures
        outcome == status_outcome(status),
{
    match status {
        BatchSubmitStatus::Accepted => Ok(()),
        BatchSubmitStatus::StatusUnset => Err(Error::BatchStatusUnset),
        BatchSubmitStatus::InvalidBatch => Err(Error::InvalidBatch),
        BatchSubmitStatus::InternalError => Err(Error::InternalError),
        BatchSubmitStatus::QueueFull => Err(Error::FullQueue),
    }
}

/// What reading a reply comes to: a reply of the wrong kind is rejected
/// whatever it holds; one of the right kind whose content could not be
/// decoded is a `DeserializationError`; otherwise the decoded content is
/// handed on.
pub open spec fn reading<T>(
    response: MessageView,
    expected_type: Seq<char>,
    decoded: Option<T>,
) -> Result<T, ErrorView> {
    if response.message_type != expected_type {
        Err(ErrorView::WrongResponse(expected_type, response.message_type))
    } else {
        match decoded {
            None => Err(ErrorView::DeserializationError),
            Some(value) => Ok(value),
        }
    }
}

/// Reads the reply to a call: checks its kind, then takes the decoded
/// content, `None` standing for content that could not be decoded.
pub fn read_response<T>(response: &Message, expected_type: &MessageType, decoded: Option<T>) -> (outcome:
    Result<T, Error>)
    ensures
        match reading(response@, expected_type@, decoded) {
            Ok(value) => outcome == Ok::<T, Error>(value),
            Err(error) => outcome matches Err(e) && e@ == error,
        },
{
    match validate_response(response, expected_type) {
        Err(error) => Err(error),
        Ok(()) => parse_response(decoded),
    }
}

/// The end of a submission: reads the reply and takes the validator's
/// status for the outcome.
pub fn conclude_batch_submission(response: &Message, decoded: Option<BatchSubmitStatus>) -> (outcome:
    Result<(), Error>)
    ensures
        match reading(response@, Operation::CreateBatch.response()@, decoded) {
            Ok(status) => outcome == status_outcome(status),
            Err(error) => outcome matches Err(e) && e@ == error,
        },
{
    let expected = Operation::CreateBatch.response_type();
    match read_response(response, &expected, decoded) {
        Ok(status) => batch_submission_outcome(status),
        Err(error) => Err(error),
    }
}

/// The end of a listing of transactions: reads the reply and hands on the
/// transactions as they were decoded.
pub fn conclude_transaction_list(response: &Message, decoded: Option<Vec<Transaction>>) -> (outcome:
    Result<Vec<Transaction>, Error>)
    ensures
        match reading(response@, Operation::ListTransactions.response()@, decoded) {
            Ok(transactions) => outcome == Ok::<Vec<Transaction>, Error>(transactions),
            Err(error) => outcome matches Err(e) && e@ == error,
        },
{
    let expected = Operation::ListTransactions.response_type();
    read_response(response, &expected, decoded)
}

/// The end of a listing of state: reads the reply and hands on the entries
/// as they were decoded.
pub fn conclude_state_list(response: &Message, decoded: Option<Vec<StateEntry>>) -> (outcome: Result<
    Vec<StateEntry>,
    Error,
>)
    ensures
        match reading(response@, Operation::ListStateEntries.response()@, decoded) {
            Ok(entries) => outcome == Ok::<Vec<StateEntry>, Error>(entries),
            Err(error) => outcome matches Err(e) && e@ == error,
        },
{
    let expected = Operation::ListStateEntries.response_type();
    read_response(response, &expected, decoded)
}

} // verus!
