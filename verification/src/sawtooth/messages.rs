//! The messages that a validator and its clients exchange, as far as this
//! library reads or fills them.

use crate::text::same_text;
use vstd::prelude::*;
use vstd::string::StrSliceExecFns;

verus! {

/// What a transaction says of itself, and what its signature covers.
#[derive(Debug, Clone, PartialEq, Eq)]
pub struct TransactionHeader {
    pub batcher_public_key: String,
    pub dependencies: Vec<String>,
    pub family_name: String,
    pub family_version: String,
    pub inputs: Vec<String>,
    pub nonce: String,
    pub outputs: Vec<String>,
    pub payload_sha512: String,
    pub signer_public_key: String,
}

/// A transaction header as plain values.
pub struct TransactionHeaderView {
    pub batcher_public_key: Seq<char>,
    pub dependencies: Seq<Seq<char>>,
    pub family_name: Seq<char>,
    pub family_version: Seq<char>,
    pub inputs: Seq<Seq<char>>,
    pub nonce: Seq<char>,
    pub outputs: Seq<Seq<char>>,
    pub payload_sha512: Seq<char>,
    pub signer_public_key: Seq<char>,
}

impl View for TransactionHeader {
    type V = TransactionHeaderView;

    open spec fn view(&self) -> TransactionHeaderView {
        TransactionHeaderView {
            batcher_public_key: self.batcher_public_key@,
            dependencies: self.dependencies.deep_view(),
            family_name: self.family_name@,
            family_version: self.family_version@,
            inputs: self.inputs.deep_view(),
            nonce: self.nonce@,
            outputs: self.outputs.deep_view(),
            payload_sha512: self.payload_sha512@,
            signer_public_key: self.signer_public_key@,
        }
    }
}

/// A signed transaction: the bytes of its header, the signature over them,
/// and the bytes of its payload.
#[derive(Debug, Clone, PartialEq, Eq)]
pub struct Transaction {
    pub header: Vec<u8>,
    pub header_signature: String,
    pub payload: Vec<u8>,
}

/// A transaction as plain values.
pub struct TransactionView {
    pub header: Seq<u8>,
    pub header_signature: Seq<char>,
    pub payload: Seq<u8>,
}

impl View for Transaction {
    type V = TransactionView;

    open spec fn view(&self) -> TransactionView {
        TransactionView {
            header: self.header@,
            header_signature: self.header_signature@,
            payload: self.payload@,
        }
    }
}

impl DeepView for Transaction {
    type V = TransactionView;

    open spec fn deep_view(&self) -> TransactionView {
        self@
    }
}

impl Transaction {
    /// A transaction with the same content.
    pub fn duplicate(&self) -> (copy: Transaction)
        ensures
            copy@ == self@,
    {
        Transaction {
            header: vstd::slice::slice_to_vec(self.header.as_slice()),
            header_signature: self.header_signature.clone(),
            payload: vstd::slice::slice_to_vec(self.payload.as_slice()),
        }
    }
}

/// What a batch says of itself, and what its signature covers.
#[derive(Debug, Clone, PartialEq, Eq)]
pub struct BatchHeader {
    pub signer_public_key: String,
    pub transaction_ids: Vec<String>,
}

/// A batch header as plain values.
pub struct BatchHeaderView {
    pub signer_public_key: Seq<char>,
    pub transaction_ids: Seq<Seq<char>>,
}

impl View for BatchHeader {
    type V = BatchHeaderView;

    open spec fn view(&self) -> BatchHeaderView {
        BatchHeaderView {
            signer_public_key: self.signer_public_key@,
            transaction_ids: self.transaction_ids.deep_view(),
        }
    }
}

/// A signed batch: the bytes of its header, the signature over them, and its
/// transactions in their order.
#[derive(Debug, Clone, PartialEq, Eq)]
pub struct Batch {
    pub header: Vec<u8>,
    pub header_signature: String,
    pub transactions: Vec<Transaction>,
    pub trace: bool,
}

/// A batch as plain values.
pub struct BatchView {
    pub header: Seq<u8>,
    pub header_signature: Seq<char>,
    pub transactions: Seq<TransactionView>,
    pub trace: bool,
}

impl View for Batch {
    type V = BatchView;

    open spec fn view(&self) -> BatchView {
        BatchView {
            header: self.header@,
            header_signature: self.header_signature@,
            transactions: self.transactions.deep_view(),
            trace: self.trace,
        }
    }
}

/// The request that submits batches to a validator.
#[derive(Debug, Clone, PartialEq, Eq)]
pub struct ClientBatchSubmitRequest {
    pub batches: Vec<Batch>,
}

/// What a validator answers to a submission.
#[derive(Debug, Clone, Copy, PartialEq, Eq, Structural)]
pub enum BatchSubmitStatus {
    StatusUnset,
    /// The validator took the batch (`OK` on the wire).
    Accepted,
    InternalError,
    InvalidBatch,
    QueueFull,
}

/// One entry of a validator's state: an address and what is stored there.
#[derive(Debug, Clone, PartialEq, Eq)]
pub struct StateEntry {
    pub address: String,
    pub data: Vec<u8>,
}

/// The kinds of message that this library sends or expects, and one variant
/// for every other kind, which carries the name of that kind. Two kinds are
/// the same where their names are. `from_name` builds each kind in its one
/// proper form; see `well_formed`.
#[derive(Debug, Clone, PartialEq, Eq)]
pub enum MessageType {
    ClientBatchSubmitRequest,
    ClientBatchSubmitResponse,
    ClientTransactionListRequest,
    ClientTransactionListResponse,
    ClientStateListRequest,
    ClientStateListResponse,
    Other(String),
}

impl View for MessageType {
    type V = Seq<char>;

    /// A kind is known by its name in the validator's protocol.
    open spec fn view(&self) -> Seq<char> {
        match self {
            MessageType::ClientBatchSubmitRequest => "CLIENT_BATCH_SUBMIT_REQUEST"@,
            MessageType::ClientBatchSubmitResponse => "CLIENT_BATCH_SUBMIT_RESPONSE"@,
            MessageType::ClientTransactionListRequest => "CLIENT_TRANSACTION_LIST_REQUEST"@,
            MessageType::ClientTransactionListResponse => "CLIENT_TRANSACTION_LIST_RESPONSE"@,
            MessageType::ClientStateListRequest => "CLIENT_STATE_LIST_REQUEST"@,
            MessageType::ClientStateListResponse => "CLIENT_STATE_LIST_RESPONSE"@,
            MessageType::Other(name) => name@,
        }
    }
}

/// Whether `name` is the name of one of the six kinds that have a variant
/// of their own.
pub open spec fn is_known_name(name: Seq<char>) -> bool {
    ||| name == "CLIENT_BATCH_SUBMIT_REQUEST"@
    ||| name == "CLIENT_BATCH_SUBMIT_RESPONSE"@
    ||| name == "CLIENT_TRANSACTION_LIST_REQUEST"@
    ||| name == "CLIENT_TRANSACTION_LIST_RESPONSE"@
    ||| name == "CLIENT_STATE_LIST_REQUEST"@
    ||| name == "CLIENT_STATE_LIST_RESPONSE"@
}

/// The six known names are not empty, and no two of them are the same.
pub proof fn lemma_known_names()
    ensures
        "CLIENT_BATCH_SUBMIT_REQUEST"@.len() == 27,
        "CLIENT_BATCH_SUBMIT_RESPONSE"@.len() == 28,
        "CLIENT_TRANSACTION_LIST_REQUEST"@.len() == 31,
        "CLIENT_TRANSACTION_LIST_RESPONSE"@.len() == 32,
        "CLIENT_STATE_LIST_REQUEST"@.len() == 25,
        "CLIENT_STATE_LIST_RESPONSE"@.len() == 26,
{
    reveal_strlit("CLIENT_BATCH_SUBMIT_REQUEST");
    reveal_strlit("CLIENT_BATCH_SUBMIT_RESPONSE");
    reveal_strlit("CLIENT_TRANSACTION_LIST_REQUEST");
    reveal_strlit("CLIENT_TRANSACTION_LIST_RESPONSE");
    reveal_strlit("CLIENT_STATE_LIST_REQUEST");
    reveal_strlit("CLIENT_STATE_LIST_RESPONSE");
}

/// A kind in its proper form has a name that is not empty.
pub proof fn lemma_well_formed_has_name(kind: MessageType)
    requires
        kind.well_formed(),
    ensures
        kind@.len() > 0,
{
    lemma_known_names();
}

/// Of kinds in their proper form the name decides the variant: two such
/// kinds with one name are of the same variant, so that comparing them by
/// their names and comparing them variant by variant come to the same.
pub proof fn lemma_name_decides_variant(first: MessageType, second: MessageType)
    requires
        first.well_formed(),
        second.well_formed(),
        first@ == second@,
    ensures
        first is ClientBatchSubmitRequest <==> second is ClientBatchSubmitRequest,
        first is ClientBatchSubmitResponse <==> second is ClientBatchSubmitResponse,
        first is ClientTransactionListRequest <==> second is ClientTransactionListRequest,
        first is ClientTransactionListResponse <==> second is ClientTransactionListResponse,
        first is ClientStateListRequest <==> second is ClientStateListRequest,
        first is ClientStateListResponse <==> second is ClientStateListResponse,
        first is Other <==> second is Other,
{
    lemma_known_names();
}

impl MessageType {
    /// Whether the kind is in its proper form: `Other` carries neither the
    /// empty name, which names no kind, nor one of the six names that have a
    /// variant of their own.
    pub open spec fn well_formed(&self) -> bool {
        self matches MessageType::Other(name) ==> name@.len() > 0 && !is_known_name(name@)
    }

    /// The kind that the validator's protocol knows as `name`: the variant
    /// of that name where there is one, `Other` with the name where there is
    /// none. But for the empty name, which names no kind, the kind is in its
    /// proper form.
    pub fn from_name(name: &str) -> (kind: MessageType)
        ensures
            kind@ == name@,
            name@.len() > 0 ==> kind.well_formed(),
            is_known_name(name@) <==> !(kind is Other),
    {
        if same_text(name, "CLIENT_BATCH_SUBMIT_REQUEST") {
            MessageType::ClientBatchSubmitRequest
        } else if same_text(name, "CLIENT_BATCH_SUBMIT_RESPONSE") {
            MessageType::ClientBatchSubmitResponse
        } else if same_text(name, "CLIENT_TRANSACTION_LIST_REQUEST") {
            MessageType::ClientTransactionListRequest
        } else if same_text(name, "CLIENT_TRANSACTION_LIST_RESPONSE") {
            MessageType::ClientTransactionListResponse
        } else if same_text(name, "CLIENT_STATE_LIST_REQUEST") {
            MessageType::ClientStateListRequest
        } else if same_text(name, "CLIENT_STATE_LIST_RESPONSE") {
            MessageType::ClientStateListResponse
        } else {
            MessageType::Other(name.to_owned())
        }
    }

    /// Whether the kind is in its proper form.
    pub fn is_well_formed(&self) -> (proper: bool)
        ensures
            proper == self.well_formed(),
    {
        match self {
            MessageType::Other(name) => {
                let rebuilt = MessageType::from_name(name.as_str());
                name.as_str().unicode_len() > 0 && matches!(rebuilt, MessageType::Other(_))
            },
            _ => true,
        }
    }

    /// The name under which the validator's protocol knows the kind.
    pub fn name(&self) -> (name: String)
        ensures
            name@ == self@,
    {
        match self {
            MessageType::ClientBatchSubmitRequest => "CLIENT_BATCH_SUBMIT_REQUEST".to_owned(),
            MessageType::ClientBatchSubmitResponse => "CLIENT_BATCH_SUBMIT_RESPONSE".to_owned(),
            MessageType::ClientTransactionListRequest => "CLIENT_TRANSACTION_LIST_REQUEST".to_owned(),
            MessageType::ClientTransactionListResponse => "CLIENT_TRANSACTION_LIST_RESPONSE".to_owned(),
            MessageType::ClientStateListRequest => "CLIENT_STATE_LIST_REQUEST".to_owned(),
            MessageType::ClientStateListResponse => "CLIENT_STATE_LIST_RESPONSE".to_owned(),
            MessageType::Other(name) => name.clone(),
        }
    }

    /// A copy of the kind.
    pub fn duplicate(&self) -> (copy: MessageType)
        ensures
            copy@ == self@,
    {
        match self {
            MessageType::ClientBatchSubmitRequest => MessageType::ClientBatchSubmitRequest,
            MessageType::ClientBatchSubmitResponse => MessageType::ClientBatchSubmitResponse,
            MessageType::ClientTransactionListRequest => MessageType::ClientTransactionListRequest,
            MessageType::ClientTransactionListResponse => MessageType::ClientTransactionListResponse,
            MessageType::ClientStateListRequest => MessageType::ClientStateListRequest,
            MessageType::ClientStateListResponse => MessageType::ClientStateListResponse,
            MessageType::Other(name) => MessageType::Other(name.clone()),
        }
    }
}

/// A message on the connection to a validator: its kind, the token that ties
/// a reply to its request, and its encoded content.
#[derive(Debug, Clone, PartialEq, Eq)]
pub struct Message {
    pub message_type: MessageType,
    pub correlation_id: String,
    pub content: Vec<u8>,
}

/// A message as plain values.
pub struct MessageView {
    pub message_type: Seq<char>,
    pub correlation_id: Seq<char>,
    pub content: Seq<u8>,
}

impl View for Message {
    type V = MessageView;

    open spec fn view(&self) -> MessageView {
        MessageView {
            message_type: self.message_type@,
            correlation_id: self.correlation_id@,
            content: self.content@,
        }
    }
}

} // verus!
