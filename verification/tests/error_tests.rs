use smpp::pdu::Pdu;
use smpp::pduparseerror::{PduParseError, PduParseErrorBody};
use smpp::sm_data::validate_length_1_or_17;

#[test]
fn formatting_unknown_command_id() {
    assert_eq!(
        PduParseError::for_unknown_command_id(0x00001234).to_string(),
        "Error parsing PDU (command_id=0x00001234, command_status=UNKNOWN, \
        sequence_number=UNKNOWN, field_name=UNKNOWN): \
        Supplied command_id is unknown."
    );
}

#[test]
fn formatting_enriched_error_shows_all_header_fields() {
    let err = PduParseError::for_statusisnotzero(0x77)
        .into_with_field_name("command_status")
        .into_with_header(Some(0x2), Some(0x77), Some(0x01020344));
    assert_eq!(
        err.to_string(),
        "Error parsing PDU (command_id=0x00000002, command_status=0x00000077, \
        sequence_number=0x01020344, field_name=command_status): \
        command_status must be 0, but was 0x00000077."
    );
}

#[test]
fn status_mapping_is_stable() {
    assert_eq!(PduParseError::for_lengthtoolong(99999).status(), 0x02);
    assert_eq!(PduParseError::for_lengthtooshort(4).status(), 0x02);
    assert_eq!(PduParseError::for_lengthlongerthanpdu(2, 20).status(), 0x02);
    assert_eq!(PduParseError::for_unknown_command_id(0xff000000).status(), 0x03);
    assert_eq!(
        PduParseError::new(PduParseErrorBody::COctetStringNotAscii(3)).status(),
        0x08
    );
    assert_eq!(PduParseError::for_statusisnotzero(7).status(), 0x08);
    assert_eq!(PduParseError::new(PduParseErrorBody::NotEnoughBytes).status(), 0x08);
}

#[test]
fn incorrect_length_carries_its_text() {
    let err = validate_length_1_or_17("validity_period", 5).unwrap_err();
    assert_eq!(
        err.to_string(),
        "Error parsing PDU (command_id=UNKNOWN, command_status=UNKNOWN, \
        sequence_number=UNKNOWN, field_name=validity_period): \
        Length 5 was incorrect: Must be either 1 or 17 characters, \
        including the NULL character."
    );
    assert!(validate_length_1_or_17("validity_period", 0).is_ok());
    assert!(validate_length_1_or_17("validity_period", 16).is_ok());
}

#[test]
fn incorrect_validity_period_length_is_rejected_in_a_frame() {
    // A submit_sm whose validity_period holds three characters.
    const PDU: &[u8; 0x3c] = b"\
        \x00\x00\x00\x3c\
        \x00\x00\x00\x04\
        \x00\x00\x00\x00\
        \x00\x00\x00\x03\
        \x00\
        \x00\x00447000123123\x00\
        \x00\x00447111222222\x00\
        \x00\x01\x01\x00abc\x00\x01\x00\x03\
        \x00\x00";

    let err = Pdu::parse(&PDU[..]).unwrap_err();
    assert_eq!(
        err.body,
        PduParseErrorBody::IncorrectLength(
            3,
            String::from("Must be either 1 or 17 characters, including the NULL character.")
        )
    );
    assert_eq!(err.field_name, Some(String::from("validity_period")));
}

#[test]
fn for_ioerror_distinguishes_truncation() {
    assert_eq!(
        PduParseError::for_ioerror(true).body,
        PduParseErrorBody::NotEnoughBytes
    );
    assert_eq!(
        PduParseError::for_ioerror(false).body,
        PduParseErrorBody::OtherIoError
    );
}

#[test]
fn sm_length_above_the_maximum_is_rejected() {
    // A submit_sm declaring sm_length = 255 with 255 bytes present:
    // the maximum payload is 254 octets.
    let mut pdu: Vec<u8> = Vec::new();
    let body: Vec<u8> = [
        &b"\x00"[..],                  // service_type
        &b"\x00\x00447000123123\x00"[..],
        &b"\x00\x00447111222222\x00"[..],
        &b"\x00\x01\x01\x00\x00\x01\x00\x03"[..],
        &b"\x00"[..],                  // sm_default_msg_id
        &b"\xff"[..],                  // sm_length = 255
        &[0x41u8; 255][..],
    ]
    .concat();
    let len = (16 + body.len()) as u32;
    pdu.extend_from_slice(&len.to_be_bytes());
    pdu.extend_from_slice(b"\x00\x00\x00\x04");
    pdu.extend_from_slice(b"\x00\x00\x00\x00");
    pdu.extend_from_slice(b"\x00\x00\x00\x03");
    pdu.extend_from_slice(&body);

    let err = Pdu::parse(&pdu[..]).unwrap_err();
    assert_eq!(err.body, PduParseErrorBody::COctetStringTooLong(254));
    assert_eq!(err.field_name, Some(String::from("short_message")));
}
