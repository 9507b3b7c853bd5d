use alica_messages_client::family::TransactionFamily;
use alica_messages_client::helper::calculate_checksum;
use alica_messages_client::payloads::TransactionPayload;
use alica_messages_client::sawtooth::factory::GeneralPurposeComponentFactory;
use alica_messages_client::sawtooth::messages::{Batch, BatchHeader, Transaction, TransactionHeader};
use alica_messages_client::sawtooth::Error;

fn factory() -> GeneralPurposeComponentFactory {
    GeneralPurposeComponentFactory::new(TransactionFamily::new(
        "alica_messages",
        &["0.1.0".to_string()],
    ))
}

fn sample() -> TransactionPayload {
    TransactionPayload::new("a1", "t1", b"hello", 100)
}

fn transaction(signature: &str) -> Transaction {
    Transaction {
        header: signature.as_bytes().to_vec(),
        header_signature: signature.to_string(),
        payload: b"p".to_vec(),
    }
}

#[test]
fn transaction_header_holds_family_address_keys_and_checksum() {
    let address = format!(
        "{}{}",
        &calculate_checksum(b"alica_messages")[..6],
        &calculate_checksum(b"a1t1100")[..64]
    );
    let header =
        factory().transaction_header_with(&sample(), "02ab".to_string(), "00ff".to_string());
    assert_eq!(
        header,
        TransactionHeader {
            batcher_public_key: "02ab".to_string(),
            dependencies: vec![],
            family_name: "alica_messages".to_string(),
            family_version: "0.1.0".to_string(),
            inputs: vec![address.clone()],
            nonce: "00ff".to_string(),
            outputs: vec![address],
            payload_sha512: calculate_checksum(b"a1|t1|hello|100"),
            signer_public_key: "02ab".to_string(),
        }
    );
}

#[test]
fn transaction_header_gets_a_fresh_nonce() {
    let first = factory().create_transaction_header_for(&sample(), Some("02ab".to_string())).unwrap();
    let second =
        factory().create_transaction_header_for(&sample(), Some("02ab".to_string())).unwrap();
    assert_eq!(first.nonce.len(), 32);
    assert!(first.nonce.chars().all(|c| matches!(c, '0'..='9' | 'a'..='f')));
    assert_ne!(first.nonce, second.nonce);
    let expected =
        factory().transaction_header_with(&sample(), "02ab".to_string(), first.nonce.clone());
    assert_eq!(first, expected);
    assert_eq!(first.signer_public_key, first.batcher_public_key);
    assert_eq!(first.inputs, first.outputs);
}

#[test]
fn transaction_header_needs_the_public_key() {
    assert_eq!(
        factory().create_transaction_header_for(&sample(), None),
        Err(Error::KeyError("Transaction Header".to_string()))
    );
}

#[test]
fn transaction_holds_header_signature_and_payload() {
    let made = factory().create_transaction_for(
        &sample(),
        Some(vec![1, 2, 3]),
        Some("signature".to_string()),
    );
    assert_eq!(
        made,
        Ok(Transaction {
            header: vec![1, 2, 3],
            header_signature: "signature".to_string(),
            payload: b"a1|t1|hello|100".to_vec(),
        })
    );
}

#[test]
fn transaction_needs_encoded_header_and_signature() {
    assert_eq!(
        factory().create_transaction_for(&sample(), None, Some("signature".to_string())),
        Err(Error::SerializationError("Transaction Header".to_string()))
    );
    assert_eq!(
        factory().create_transaction_for(&sample(), None, None),
        Err(Error::SerializationError("Transaction Header".to_string()))
    );
    assert_eq!(
        factory().create_transaction_for(&sample(), Some(vec![1]), None),
        Err(Error::SigningError("Transaction Header".to_string()))
    );
}

#[test]
fn batch_header_lists_the_signatures_in_the_order_of_the_transactions() {
    let transactions = vec![transaction("c"), transaction("a"), transaction("b"), transaction("a")];
    assert_eq!(
        factory().create_batch_header_for(&transactions, Some("02ab".to_string())),
        Ok(BatchHeader {
            signer_public_key: "02ab".to_string(),
            transaction_ids: vec!["c".to_string(), "a".to_string(), "b".to_string(), "a".to_string()],
        })
    );
    assert_eq!(
        factory().create_batch_header_for(&Vec::new(), Some("02ab".to_string())),
        Ok(BatchHeader { signer_public_key: "02ab".to_string(), transaction_ids: vec![] })
    );
}

#[test]
fn batch_header_needs_the_public_key() {
    assert_eq!(
        factory().create_batch_header_for(&vec![transaction("a")], None),
        Err(Error::KeyError("Batch Header".to_string()))
    );
}

#[test]
fn batch_holds_header_signature_and_the_transactions_in_their_order() {
    let transactions = vec![transaction("c"), transaction("a"), transaction("b")];
    assert_eq!(
        factory().create_batch_for(&transactions, Some(vec![9, 8]), Some("signed".to_string())),
        Ok(Batch {
            header: vec![9, 8],
            header_signature: "signed".to_string(),
            transactions: transactions.clone(),
            trace: false,
        })
    );
}

#[test]
fn batch_needs_encoded_header_and_signature() {
    let transactions = vec![transaction("a")];
    assert_eq!(
        factory().create_batch_for(&transactions, None, Some("signed".to_string())),
        Err(Error::SerializationError("Batch Header".to_string()))
    );
    assert_eq!(
        factory().create_batch_for(&transactions, Some(vec![1]), None),
        Err(Error::SigningError("Batch Header".to_string()))
    );
}

#[test]
fn a_copy_of_a_transaction_holds_the_same() {
    let first = transaction("a");
    assert_eq!(first.duplicate(), first);
}
