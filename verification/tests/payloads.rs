use alica_messages_client::alica::messages::Payload;
use alica_messages_client::communication::{get_namespace, state_address_for, AlicaMessage};
use alica_messages_client::family::TransactionFamily;
use alica_messages_client::helper::calculate_checksum;
use alica_messages_client::payloads::pipe_separated;
use alica_messages_client::payloads::{Error, Format, TransactionPayload};

fn sample() -> TransactionPayload {
    TransactionPayload::new("a1", "t1", b"hello", 100)
}

#[test]
fn payload_holds_what_it_was_made_of() {
    let payload = sample();
    assert_eq!(payload.agent_id, "a1");
    assert_eq!(payload.message_type, "t1");
    assert_eq!(payload.message_bytes, b"hello".to_vec());
    assert_eq!(payload.timestamp, 100);
}

#[test]
fn payload_is_written_with_pipes() {
    assert_eq!(sample().serialize(), b"a1|t1|hello|100".to_vec());
    let format = pipe_separated::Format::default();
    assert_eq!(format.serialize(&sample()), b"a1|t1|hello|100".to_vec());
    let empty = TransactionPayload::new("", "", b"", 0);
    assert_eq!(empty.serialize(), b"|||0".to_vec());
}

#[test]
fn payload_reads_back_as_written() {
    let format = pipe_separated::Format::default();
    let payloads = vec![
        sample(),
        TransactionPayload::new("", "", b"", 0),
        TransactionPayload::new("agent \u{e4}", "typ\u{e9}", &[0, 255, 128, 10], u64::MAX),
        TransactionPayload::new("agent1", "type", b"message", 69182798179),
    ];
    for payload in payloads {
        assert_eq!(format.deserialize(&format.serialize(&payload)), Ok(payload));
    }
}

#[test]
fn payload_with_a_pipe_in_a_field_does_not_read_back() {
    let format = pipe_separated::Format::default();
    let payload = TransactionPayload::new("a|1", "t1", b"hello", 100);
    assert_ne!(format.deserialize(&payload.serialize()), Ok(payload));
}

#[test]
fn bytes_with_too_few_or_too_many_fields_are_no_payload() {
    let reason = "Payload does not consist of four fields".to_string();
    for bytes in [&b""[..], b"a1", b"a1|t1", b"a1|t1|hello", b"a1|t1|hello|100|", b"a|b|c|1|2"] {
        assert_eq!(pipe_separated::read(bytes), Err(Error::InvalidPayload(reason.clone())));
    }
}

#[test]
fn agent_id_and_message_type_have_to_be_text() {
    let reason = "Agent id and message type must be valid UTF-8".to_string();
    assert_eq!(
        pipe_separated::read(&[0xff, b'|', b't', b'|', b'm', b'|', b'1']),
        Err(Error::InvalidPayload(reason.clone()))
    );
    assert_eq!(
        pipe_separated::read(&[b'a', b'|', 0xc3, b'|', b'm', b'|', b'1']),
        Err(Error::InvalidPayload(reason))
    );
}

#[test]
fn timestamp_has_to_be_a_number() {
    assert_eq!(pipe_separated::read(b"a1|t1|hello|"), Err(Error::InvalidTimestamp));
    assert_eq!(pipe_separated::read(b"a1|t1|hello|now"), Err(Error::InvalidTimestamp));
    assert_eq!(pipe_separated::read(b"a1|t1|hello|-1"), Err(Error::InvalidTimestamp));
    assert_eq!(
        pipe_separated::read(b"a1|t1|hello|18446744073709551616"),
        Err(Error::InvalidTimestamp)
    );
}

#[test]
fn message_may_be_any_bytes() {
    let read = pipe_separated::read(&[b'a', b'|', b't', b'|', 0xff, 0x00, b'|', b'7']);
    assert_eq!(read, Ok(TransactionPayload::new("a", "t", &[0xff, 0x00], 7)));
}

#[test]
fn family_gives_name_and_first_version() {
    let family = TransactionFamily::new("alica_messages", &["0.1.0".to_string(), "0.2.0".to_string()]);
    assert_eq!(family.name(), "alica_messages");
    assert_eq!(family.version(), "0.1.0");
    assert_eq!(TransactionFamily::new("alica_messages", &[]).version(), "");
}

#[test]
fn namespace_is_the_start_of_the_checksum_of_the_name() {
    let family = TransactionFamily::new("alica_messages", &["0.1.0".to_string()]);
    let namespace = family.calculate_namespace();
    assert_eq!(namespace.len(), 6);
    assert_eq!(namespace, calculate_checksum(b"alica_messages")[..6]);
}

#[test]
fn namespace_does_not_depend_on_versions() {
    let first = TransactionFamily::new("alica_messages", &["0.1.0".to_string()]);
    let second = TransactionFamily::new("alica_messages", &["1.0".to_string(), "2.0".to_string()]);
    let third = TransactionFamily::new("alica_messages", &[]);
    assert_eq!(first.calculate_namespace(), second.calculate_namespace());
    assert_eq!(first.calculate_namespace(), third.calculate_namespace());
    let other = TransactionFamily::new("intkey", &["0.1.0".to_string()]);
    assert_ne!(first.calculate_namespace(), other.calculate_namespace());
}

#[test]
fn state_address_is_namespace_and_checksum_of_the_key() {
    let family = TransactionFamily::new("alica_messages", &["0.1.0".to_string()]);
    let address = family.calculate_state_address_for(&sample());
    let expected = format!(
        "{}{}",
        &calculate_checksum(b"alica_messages")[..6],
        &calculate_checksum(b"a1t1100")[..64]
    );
    assert_eq!(address.len(), 70);
    assert_eq!(address, expected);
    assert!(address.starts_with(&family.calculate_namespace()));
}

#[test]
fn state_address_does_not_depend_on_the_message() {
    let family = TransactionFamily::new("alica_messages", &["0.1.0".to_string()]);
    let first = TransactionPayload::new("a1", "t1", b"hello", 100);
    let second = TransactionPayload::new("a1", "t1", b"something else", 100);
    assert_eq!(
        family.calculate_state_address_for(&first),
        family.calculate_state_address_for(&second)
    );
    let later = TransactionPayload::new("a1", "t1", b"hello", 101);
    assert_ne!(
        family.calculate_state_address_for(&first),
        family.calculate_state_address_for(&later)
    );
}

#[test]
fn typed_message_is_written_with_two_semicolons() {
    let payload = Payload::new("msg".to_string(), "hello".to_string());
    assert_eq!(payload.serialize(), b"msg;;hello".to_vec());
    assert_eq!(Payload::new(String::new(), String::new()).serialize(), b";;".to_vec());
}

#[test]
fn message_with_textual_timestamp_is_written_with_pipes() {
    let message = AlicaMessage::new(
        "a1".to_string(),
        "t1".to_string(),
        "hello".to_string(),
        "100".to_string(),
    );
    assert_eq!(message.serialize(), b"a1|t1|hello|100".to_vec());
}

#[test]
fn message_with_textual_timestamp_has_the_address_of_its_payload() {
    let message = AlicaMessage::new(
        "a1".to_string(),
        "t1".to_string(),
        "hello".to_string(),
        "100".to_string(),
    );
    let family = TransactionFamily::new("alica_messages", &["0.1.0".to_string()]);
    assert_eq!(get_namespace("alica_messages"), family.calculate_namespace());
    assert_eq!(
        state_address_for("alica_messages", &message),
        family.calculate_state_address_for(&sample())
    );
}
