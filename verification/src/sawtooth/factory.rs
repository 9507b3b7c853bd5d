//! Transaction and batch envelopes.
//!
//! The factory decides what goes into a header, a transaction and a batch,
//! and which error a failure is reported as. The signer's public key, the
//! encoded bytes of a header and the signature over them come from outside:
//! each function takes them as they came, `None` standing for a failure.

use crate::family::{state_address, FamilyView, TransactionFamily};
use crate::helper::{calculate_checksum, checksum, is_nonce, random_nonce};
use crate::payloads::pipe_separated::serialized;
use crate::payloads::{PayloadView, TransactionPayload};
use crate::sawtooth::messages::{
    Batch, BatchHeader, BatchHeaderView, BatchView, Transaction, TransactionHeader,
    TransactionHeaderView, TransactionView,
};
use crate::sawtooth::{Error, ErrorView};
use vstd::prelude::*;

verus! {

/// The name under which errors speak of a transaction header.
pub open spec fn transaction_header_name() -> Seq<char> {
    "Transaction Header"@
}

/// The name under which errors speak of a batch header.
pub open spec fn batch_header_name() -> Seq<char> {
    "Batch Header"@
}

/// The header of the transaction that carries `payload` in `family`, signed
/// and batched by the owner of `public_key`: the payload's address is the one
/// input and the one output, and the checksum is that of the payload's bytes.
pub open spec fn transaction_header(
    family: FamilyView,
    payload: PayloadView,
    public_key: Seq<char>,
    nonce: Seq<char>,
) -> TransactionHeaderView {
    TransactionHeaderView {
        batcher_public_key: public_key,
        dependencies: Seq::empty(),
        family_name: family.name,
        family_version: family.version(),
        inputs: seq![state_address(family.name, payload)],
        nonce,
        outputs: seq![state_address(family.name, payload)],
        payload_sha512: checksum(serialized(payload)),
        signer_public_key: public_key,
    }
}

/// The signatures of `transactions`, in their order.
pub open spec fn header_signatures(transactions: Seq<TransactionView>) -> Seq<Seq<char>> {
    Seq::new(transactions.len(), |i: int| transactions[i].header_signature)
}

/// The header of the batch of `transactions`, signed by the owner of
/// `public_key`: it lists the transactions' signatures in their order.
pub open spec fn batch_header(transactions: Seq<TransactionView>, public_key: Seq<char>) -> BatchHeaderView {
    BatchHeaderView {
        signer_public_key: public_key,
        transaction_ids: header_signatures(transactions),
    }
}

/// What building a signed envelope comes to: an encoding failure is
/// reported first, then a signing failure; with both at hand the envelope
/// is `made`.
pub open spec fn signed<T>(
    component: Seq<char>,
    header: Option<Seq<u8>>,
    signature: Option<Seq<char>>,
    made: T,
) -> Result<T, ErrorView> {
    if header is None {
        Err(ErrorView::SerializationError(component))
    } else if signature is None {
        Err(ErrorView::SigningError(component))
    } else {
        Ok(made)
    }
}

/// The bytes or the text that an outside call handed back, as plain values.
pub open spec fn bytes_view(bytes: Option<Vec<u8>>) -> Option<Seq<u8>> {
    match bytes {
        Some(bytes) => Some(bytes@),
        None => None,
    }
}

/// See `bytes_view`.
pub open spec fn text_view(text: Option<String>) -> Option<Seq<char>> {
    match text {
        Some(text) => Some(text@),
        None => None,
    }
}

/// The factory for the transactions of one family.
#[derive(Debug, Clone, PartialEq, Eq)]
pub struct GeneralPurposeComponentFactory {
    transaction_family: TransactionFamily,
}

impl GeneralPurposeComponentFactory {
    /// The factory for the transactions of `transaction_family`.
    pub fn new(transaction_family: TransactionFamily) -> (factory: Self)
        ensures
            factory.family() == transaction_family@,
    {
        GeneralPurposeComponentFactory { transaction_family }
    }

    /// The family whose transactions the factory builds.
    pub closed spec fn family(&self) -> FamilyView {
        self.transaction_family@
    }

    /// The header for `message` with the given key and nonce.
    pub fn transaction_header_with(
        &self,
        message: &TransactionPayload,
        public_key: String,
        nonce: String,
    ) -> (header: TransactionHeader)
        ensures
            header@ == transaction_header(self.family(), message@, public_key@, nonce@),
    {
        let payload_checksum = calculate_checksum(message.serialize().as_slice());
        let state_address = self.transaction_family.calculate_state_address_for(message);
        let mut inputs: Vec<String> = Vec::new();
        inputs.push(state_address.clone());
        let mut outputs: Vec<String> = Vec::new();
        outputs.push(state_address);
        let header = TransactionHeader {
            batcher_public_key: public_key.clone(),
            dependencies: Vec::new(),
            family_name: self.transaction_family.name(),
            family_version: self.transaction_family.version(),
            inputs,
            nonce,
            outputs,
            payload_sha512: payload_checksum,
            signer_public_key: public_key,
        };
        proof {
            let expected = transaction_header(self.family(), message@, public_key@, nonce@);
            assert(header@.outputs =~= expected.outputs);
            assert(header@.dependencies =~= expected.dependencies);
        }
        header
    }

    /// The header for `message`, with a fresh nonce. Without a public key
    /// there is no header, but a `KeyError`.
    pub fn create_transaction_header_for(
        &self,
        message: &TransactionPayload,
        public_key: Option<String>,
    ) -> (outcome: Result<TransactionHeader, Error>)
        ensures
            public_key is None ==> (outcome matches Err(error) && error@ == ErrorView::KeyError(
                transaction_header_name(),
            )),
            public_key matches Some(key) ==> (outcome matches Ok(header) && is_nonce(header.nonce@)
                && header@ == transaction_header(self.family(), message@, key@, header.nonce@)),
    {
        match public_key {
            None => Err(Error::KeyError("Transaction Header".to_owned())),
            Some(key) => Ok(self.transaction_header_with(message, key, random_nonce())),
        }
    }

    /// The transaction that carries `message` under the header whose encoded
    /// bytes are `header`, with `signature` over those bytes.
    pub fn create_transaction_for(
        &self,
        message: &TransactionPayload,
        header: Option<Vec<u8>>,
        signature: Option<String>,
    ) -> (outcome: Result<Transaction, Error>)
        ensures
            transaction_outcome(outcome) == signed(
                transaction_header_name(),
                bytes_view(header),
                text_view(signature),
                TransactionView {
                    header: header.unwrap()@,
                    header_signature: signature.unwrap()@,
                    payload: serialized(message@),
                },
            ),
    {
        match header {
            None => Err(Error::SerializationError("Transaction Header".to_owned())),
            Some(header) => match signature {
                None => Err(Error::SigningError("Transaction Header".to_owned())),
                Some(header_signature) => Ok(
                    Transaction { header, header_signature, payload: message.serialize() },
                ),
            },
        }
    }

    /// The header of the batch of `transactions`. Without a public key there
    /// is no header, but a `KeyError`.
    pub fn create_batch_header_for(
        &self,
        transactions: &Vec<Transaction>,
        public_key: Option<String>,
    ) -> (outcome: Result<BatchHeader, Error>)
        ensures
            public_key is None ==> (outcome matches Err(error) && error@ == ErrorView::KeyError(
                batch_header_name(),
            )),
            public_key matches Some(key) ==> (outcome matches Ok(header) && header@ == batch_header(
                transactions.deep_view(),
                key@,
            )),
            outcome matches Ok(header) ==> header.transaction_ids@.len() == transactions@.len()
                && forall|i: int|
                0 <= i < transactions@.len() ==> #[trigger] header.transaction_ids@[i]@
                    == transactions@[i].header_signature@,
    {
        match public_key {
            None => Err(Error::KeyError("Batch Header".to_owned())),
            Some(signer_public_key) => {
                let mut transaction_ids: Vec<String> = Vec::new();
                let mut i: usize = 0;
                while i < transactions.len()
                    invariant
                        0 <= i <= transactions@.len(),
                        transaction_ids@.len() == i,
                        forall|j: int|
                            0 <= j < i ==> #[trigger] transaction_ids@[j]@
                                == transactions@[j].header_signature@,
                    decreases transactions@.len() - i,
                {
                    transaction_ids.push(transactions[i].header_signature.clone());
                    i += 1;
                }
                assert(transaction_ids.deep_view() =~= header_signatures(transactions.deep_view()));
                Ok(BatchHeader { signer_public_key, transaction_ids })
            },
        }
    }

    /// The batch of `transactions` under the header whose encoded bytes are
    /// `header`, with `signature` over those bytes.
    pub fn create_batch_for(
        &self,
        transactions: &Vec<Transaction>,
        header: Option<Vec<u8>>,
        signature: Option<String>,
    ) -> (outcome: Result<Batch, Error>)
        ensures
            batch_outcome(outcome) == signed(
                batch_header_name(),
                bytes_view(header),
                text_view(signature),
                BatchView {
                    header: header.unwrap()@,
                    header_signature: signature.unwrap()@,
                    transactions: transactions.deep_view(),
                    trace: false,
                },
            ),
    {
        match header {
            None => Err(Error::SerializationError("Batch Header".to_owned())),
            Some(header) => match signature {
                None => Err(Error::SigningError("Batch Header".to_owned())),
                Some(header_signature) => {
                    let mut copies: Vec<Transaction> = Vec::new();
                    let mut i: usize = 0;
                    while i < transactions.len()
                        invariant
                            0 <= i <= transactions@.len(),
                            copies@.len() == i,
                            forall|j: int| 0 <= j < i ==> #[trigger] copies@[j]@ == transactions@[j]@,
                        decreases transactions@.len() - i,
                    {
                        copies.push(transactions[i].duplicate());
                        i += 1;
                    }
                    assert(copies.deep_view() =~= transactions.deep_view());
                    Ok(Batch { header, header_signature, transactions: copies, trace: false })
                },
            },
        }
    }
}

/// The outcome of building a transaction, as plain values.
pub open spec fn transaction_outcome(outcome: Result<Transaction, Error>) -> Result<
    TransactionView,
    ErrorView,
> {
    match outcome {
        Ok(transaction) => Ok(transaction@),
        Err(error) => Err(error@),
    }
}

/// The outcome of building a batch, as plain values.
pub open spec fn batch_outcome(outcome: Result<Batch, Error>) -> Result<BatchView, ErrorView> {
    match outcome {
        Ok(batch) => Ok(batch@),
        Err(error) => Err(error@),
    }
}

/// A batch header lists one id for each transaction, and the id at each place
/// is the signature of the transaction at that place.
pub proof fn lemma_batch_header_keeps_order(transactions: Seq<TransactionView>, public_key: Seq<char>)
    ensures
        batch_header(transactions, public_key).transaction_ids.len() == transactions.len(),
        forall|i: int|
            0 <= i < transactions.len() ==> #[trigger] batch_header(
                transactions,
                public_key,
            ).transaction_ids[i] == transactions[i].header_signature,
{
}

} // verus!
