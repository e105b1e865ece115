use smpp::operations::{
    BindTransmitterPdu, BindTransmitterRespPdu, SubmitSmPdu, SubmitSmRespPdu,
};
use smpp::pdu::{Pdu, PduBody};

const BIND_TRANSMITTER_RESP_PDU_PLUS_EXTRA: &[u8; 0x1b + 0xa] =
    b"\x00\x00\x00\x1b\x80\x00\x00\x02\x00\x00\x00\x00\x00\x00\x00\x02TestServer\0extrabytes";

#[test]
fn pdu_parse_valid_bind_transmitter() {
    const BIND_TRANSMITTER_PDU_PLUS_EXTRA: &[u8; 0x2e + 0x6] =
        b"\x00\x00\x00\x2e\x00\x00\x00\x02\x00\x00\x00\x00\x01\x02\x03\x44\
        mysystem_ID\0pw$xx\0t_p_\0\x34\x13\x50rng\0foobar";

    assert_eq!(
        Pdu::parse(&BIND_TRANSMITTER_PDU_PLUS_EXTRA[..]).unwrap(),
        Pdu::new(
            0x00000000,
            0x01020344,
            PduBody::BindTransmitter(
                BindTransmitterPdu::new("mysystem_ID", "pw$xx", "t_p_", 0x34, 0x13, 0x50, "rng")
                    .unwrap()
            )
        )
        .unwrap()
    );
}

#[test]
fn pdu_enum_parse_valid_bind_transmitter() {
    const BIND_TRANSMITTER_PDU_PLUS_EXTRA: &[u8; 0x2e + 0x6] =
        b"\x00\x00\x00\x2e\x00\x00\x00\x02\x00\x00\x00\x00\x01\x02\x03\x44\
        mysystem_ID\0pw$xx\0t_p_\0\x34\x13\x50rng\0foobar";

    assert_eq!(
        Pdu::parse(&BIND_TRANSMITTER_PDU_PLUS_EXTRA[..]).unwrap(),
        Pdu::new(
            0x00000000,
            0x01020344,
            PduBody::BindTransmitter(
                BindTransmitterPdu::new("mysystem_ID", "pw$xx", "t_p_", 0x34, 0x13, 0x50, "rng")
                    .unwrap()
            )
        )
        .unwrap()
    );
}

#[test]
fn pdu_parse_bind_transmitter_with_too_long_system_id() {
    const PDU: &[u8; 0x29] =
        b"\x00\x00\x00\x29\x00\x00\x00\x02\x00\x00\x00\x00\x01\x02\x03\x44\
        ABDEFABCDEFABCDEFA\0\0\0\x34\x13\x50\0";

    let res = Pdu::parse(&PDU[..]).unwrap_err();
    assert_eq!(
        res.to_string(),
        "Error parsing PDU \
        (command_id=0x00000002, command_status=0x00000000, \
        sequence_number=0x01020344, field_name=system_id): \
        Octet String is too long.  Max length is 16, including final \
        zero byte.",
    );
}

#[test]
fn pdu_enum_parse_bind_transmitter_with_too_long_system_id() {
    const PDU: &[u8; 0x29] =
        b"\x00\x00\x00\x29\x00\x00\x00\x02\x00\x00\x00\x00\x01\x02\x03\x44\
        ABDEFABCDEFABCDEFA\0\0\0\x34\x13\x50\0";

    let res = Pdu::parse(&PDU[..]).unwrap_err();
    assert_eq!(
        res.to_string(),
        "Error parsing PDU \
        (command_id=0x00000002, command_status=0x00000000, \
        sequence_number=0x01020344, field_name=system_id): \
        Octet String is too long.  Max length is 16, including final \
        zero byte.",
    );
}

#[test]
fn pdu_parse_bind_transmitter_with_length_ending_within_string() {
    const PDU: &[u8; 0x29] =
        b"\x00\x00\x00\x12\x00\x00\x00\x02\x00\x00\x00\x00\x01\x02\x03\x44\
        ABDEFABCDEFABCDEFA\0\0\0\x34\x13\x50\0";

    let res = Pdu::parse(&PDU[..]).unwrap_err();
    assert_eq!(
        res.to_string(),
        "Error parsing PDU \
        (command_id=0x00000002, command_status=0x00000000, \
        sequence_number=0x01020344, field_name=system_id): \
        C-Octet String does not end with the NULL character.",
    );
}

#[test]
fn pdu_enum_parse_bind_transmitter_with_length_ending_within_string() {
    const PDU: &[u8; 0x29] =
        b"\x00\x00\x00\x12\x00\x00\x00\x02\x00\x00\x00\x00\x01\x02\x03\x44\
        ABDEFABCDEFABCDEFA\0\0\0\x34\x13\x50\0";

    let res = Pdu::parse(&PDU[..]).unwrap_err();
    assert_eq!(
        res.to_string(),
        "Error parsing PDU \
        (command_id=0x00000002, command_status=0x00000000, \
        sequence_number=0x01020344, field_name=system_id): \
        C-Octet String does not end with the NULL character.",
    );
}

#[test]
fn pdu_parse_bind_transmitter_ending_before_all_fields() {
    const PDU: &[u8; 0x13] =
        b"\x00\x00\x00\x13\x00\x00\x00\x02\x00\x00\x00\x00\x01\x02\x03\x44\0\0\0";

    let res = Pdu::parse(&PDU[..]).unwrap_err();
    assert_eq!(
        res.to_string(),
        "Error parsing PDU (\
        command_id=0x00000002, command_status=0x00000000, \
        sequence_number=0x01020344, field_name=interface_version): \
        Reached end of PDU length (or end of input) before finding all \
        fields of the PDU.",
    );
}

#[test]
fn pdu_enum_parse_bind_transmitter_ending_before_all_fields() {
    const PDU: &[u8; 0x13] =
        b"\x00\x00\x00\x13\x00\x00\x00\x02\x00\x00\x00\x00\x01\x02\x03\x44\0\0\0";

    let res = Pdu::parse(&PDU[..]).unwrap_err();
    assert_eq!(
        res.to_string(),
        "Error parsing PDU (\
        command_id=0x00000002, command_status=0x00000000, \
        sequence_number=0x01020344, field_name=interface_version): \
        Reached end of PDU length (or end of input) before finding all \
        fields of the PDU.",
    );
}

#[test]
fn pdu_parse_bind_transmitter_hitting_eof_before_end_of_length() {
    const PDU: &[u8; 0x0b] = b"\x00\x00\x00\x2e\x00\x00\x00\x02\x00\x00\x00";

    let res = Pdu::parse(&PDU[..]).unwrap_err();
    assert_eq!(
        res.to_string(),
        "Error parsing PDU (\
        command_id=0x00000002, command_status=UNKNOWN, \
        sequence_number=UNKNOWN, field_name=command_status): \
        Reached end of PDU length (or end of input) before finding all \
        fields of the PDU.",
    );
}

#[test]
fn pdu_enum_parse_bind_transmitter_hitting_eof_before_end_of_length() {
    const PDU: &[u8; 0x0b] = b"\x00\x00\x00\x2e\x00\x00\x00\x02\x00\x00\x00";

    let res = Pdu::parse(&PDU[..]).unwrap_err();
    assert_eq!(
        res.to_string(),
        "Error parsing PDU (\
        command_id=0x00000002, command_status=UNKNOWN, \
        sequence_number=UNKNOWN, field_name=command_status): \
        Reached end of PDU length (or end of input) before finding all \
        fields of the PDU.",
    );
}

#[test]
fn pdu_parse_bind_transmitter_with_short_length() {
    const PDU: &[u8; 4] = b"\x00\x00\x00\x04";

    let res = Pdu::parse(&PDU[..]).unwrap_err();
    assert_eq!(
        res.to_string(),
        "Error parsing PDU (\
        command_id=UNKNOWN, command_status=UNKNOWN, \
        sequence_number=UNKNOWN, field_name=UNKNOWN): \
        Length (4) too short.  Min allowed is 8 octets.",
    );
}

#[test]
fn pdu_enum_parse_bind_transmitter_with_short_length() {
    const PDU: &[u8; 4] = b"\x00\x00\x00\x04";

    let res = Pdu::parse(&PDU[..]).unwrap_err();
    assert_eq!(
        res.to_string(),
        "Error parsing PDU (\
        command_id=UNKNOWN, command_status=UNKNOWN, \
        sequence_number=UNKNOWN, field_name=UNKNOWN): \
        Length (4) too short.  Min allowed is 8 octets.",
    );
}

#[test]
fn pdu_parse_bind_transmitter_with_massive_length() {
    const PDU: &[u8; 16] = b"\xff\xff\xff\xff\x00\x00\x00\x02\x00\x00\x00\x00\x00\x00\x00\x00";

    let res = Pdu::parse(&PDU[..]).unwrap_err();
    assert_eq!(
        res.to_string(),
        "Error parsing PDU (\
        command_id=0x00000002, command_status=0x00000000, \
        sequence_number=0x00000000, field_name=UNKNOWN): \
        Length (4294967295) too long.  Max allowed is 70000 octets.",
    );
}

#[test]
fn pdu_enum_parse_bind_transmitter_with_massive_length() {
    const PDU: &[u8; 16] = b"\xff\xff\xff\xff\x00\x00\x00\x02\x00\x00\x00\x00\x00\x00\x00\x00";

    let res = Pdu::parse(&PDU[..]).unwrap_err();
    assert_eq!(
        res.to_string(),
        "Error parsing PDU (\
        command_id=0x00000002, command_status=0x00000000, \
        sequence_number=0x00000000, field_name=UNKNOWN): \
        Length (4294967295) too long.  Max allowed is 70000 octets.",
    );
}

#[test]
fn parse_bind_transmitter_containing_nonascii_characters() {
    const PDU: &[u8; 0x2e + 0x6] =
        b"\x00\x00\x00\x2e\x00\x00\x00\x02\x00\x00\x00\x00\x01\x02\x03\x44\
        mys\xf0\x9f\x92\xa9m_ID\0pw$xx\0t_p_\0\x34\x13\x50rng\0foobar";

    let res = Pdu::parse(&PDU[..]).unwrap_err();
    assert_eq!(
        res.to_string(),
        "Error parsing PDU (\
        command_id=0x00000002, command_status=0x00000000, \
        sequence_number=0x01020344, field_name=system_id): \
        Octet String is not ASCII (valid up to byte 3).",
    );
}

#[test]
fn parse_bind_transmitter_with_nonzero_status() {
    const PDU: &[u8; 0x2e + 0x6] =
        b"\x00\x00\x00\x2e\x00\x00\x00\x02\x00\x00\x00\x77\x01\x02\x03\x44\
        mysystem_ID\0pw$xx\0t_p_\0\x34\x13\x50rng\0foobar";

    let res = Pdu::parse(&PDU[..]).unwrap_err();
    assert_eq!(
        res.to_string(),
        "Error parsing PDU (\
        command_id=0x00000002, command_status=0x00000077, \
        sequence_number=0x01020344, field_name=command_status): \
        command_status must be 0, but was 0x00000077.",
    );
}

#[test]
fn parse_valid_bind_transmitter_resp() {
    assert_eq!(
        Pdu::parse(&BIND_TRANSMITTER_RESP_PDU_PLUS_EXTRA[..]).unwrap(),
        Pdu::new(
            0x00000000,
            0x00000002,
            PduBody::BindTransmitterResp(BindTransmitterRespPdu::new("TestServer").unwrap())
        )
        .unwrap()
    );
}

#[test]
fn parse_valid_submit_sm_with_short_message_and_no_tlvs() {
    const PDU: &[u8; 0x3d] = b"\
        \x00\x00\x00\x3d\
        \x00\x00\x00\x04\
        \x00\x00\x00\x00\
        \x00\x00\x00\x03\
        \x00\
        \x00\x00447000123123\x00\
        \x00\x00447111222222\x00\
        \x00\x01\x01\x00\x00\x01\x00\x03\
        \x00\x04hihi";

    assert_eq!(
        Pdu::parse(&PDU[..]).unwrap(),
        Pdu::new(
            0x00000000,
            0x00000003,
            PduBody::SubmitSm(
                SubmitSmPdu::new(
                    "",
                    0x00,
                    0x00,
                    "447000123123",
                    0x00,
                    0x00,
                    "447111222222",
                    0x00,
                    0x01,
                    0x01,
                    "",
                    "",
                    0x01,
                    0x00,
                    0x03,
                    0x00,
                    b"hihi"
                )
                .unwrap()
            )
        )
        .unwrap()
    );
}

#[test]
fn parse_valid_submit_sm_with_empty_short_message_and_no_tlvs() {
    const PDU: &[u8; 0x3e] = b"\
        \x00\x00\x00\x39\
        \x00\x00\x00\x04\
        \x00\x00\x00\x00\
        \x00\x00\x00\x03\
        \x00\
        \x00\x00447000123123\x00\
        \x00\x00447111222222\x00\
        \x00\x01\x01\x00\x00\x01\x00\x03\
        \x00\x00extra";

    assert_eq!(
        Pdu::parse(&PDU[..]).unwrap(),
        Pdu::new(
            0x00000000,
            0x00000003,
            PduBody::SubmitSm(
                SubmitSmPdu::new(
                    "",
                    0x00,
                    0x00,
                    "447000123123",
                    0x00,
                    0x00,
                    "447111222222",
                    0x00,
                    0x01,
                    0x01,
                    "",
                    "",
                    0x01,
                    0x00,
                    0x03,
                    0x00,
                    &[]
                )
                .unwrap()
            )
        )
        .unwrap()
    );
}

#[test]
fn parse_submit_sm_with_too_long_message_length() {
    const PDU: &[u8; 0x3d] = b"\
        \x00\x00\x00\x3d\
        \x00\x00\x00\x04\
        \x00\x00\x00\x00\
        \x00\x00\x00\x03\
        \x00\
        \x00\x00447000123123\x00\
        \x00\x00447111222222\x00\
        \x00\x01\x01\x00\x00\x01\x00\x03\
        \x00\x08hihi";

    let err = Pdu::parse(&PDU[..]).unwrap_err();
    assert_eq!(
        err.to_string(),
        "Error parsing PDU \
        (command_id=0x00000004, command_status=0x00000000, \
        sequence_number=0x00000003, field_name=short_message): \
        Reached end of PDU length (or end of input) before finding all \
        fields of the PDU."
    );
}

#[test]
fn parse_submit_sm_resp_ok_with_message_id() {
    const PDU: &[u8; 0x3a] = b"\
        \x00\x00\x00\x35\
        \x80\x00\x00\x04\
        \x00\x00\x00\x00\
        \x00\x00\x00\x04\
        ea04b3d4-6a18-11eb-a387-c8f7507e3592\x00\
        extra";

    assert_eq!(
        Pdu::parse(&PDU[..]).unwrap(),
        Pdu::new(
            0x00000000,
            0x00000004,
            PduBody::SubmitSmResp(
                SubmitSmRespPdu::new_ok("ea04b3d4-6a18-11eb-a387-c8f7507e3592").unwrap()
            )
        )
        .unwrap()
    );
}

#[test]
fn parse_submit_sm_resp_ok_without_message_id_is_an_error() {
    const PDU: &[u8; 0x10] = b"\
        \x00\x00\x00\x10\
        \x80\x00\x00\x04\
        \x00\x00\x00\x00\
        \x00\x00\x00\x04";

    assert_eq!(
        Pdu::parse(&PDU[..]).unwrap_err().to_string(),
        "Error parsing PDU (\
        command_id=0x80000004, command_status=0x00000000, \
        sequence_number=0x00000004, field_name=message_id): \
        C-Octet String does not end with the NULL character."
    );
}

#[test]
fn parse_submit_sm_resp_error_without_message_id() {
    const PDU: &[u8; 0x10] = b"\
        \x00\x00\x00\x10\
        \x80\x00\x00\x04\
        \x00\x00\x00\x07\
        \x00\x00\x00\x04";

    assert_eq!(
        Pdu::parse(&PDU[..]).unwrap(),
        Pdu::new(
            0x00000007,
            0x00000004,
            PduBody::SubmitSmResp(SubmitSmRespPdu::new_error())
        )
        .unwrap()
    );
}

#[test]
fn parse_submit_sm_resp_error_with_message_id_is_an_error() {
    const PDU: &[u8; 0x12] = b"\
        \x00\x00\x00\x12\
        \x80\x00\x00\x04\
        \x00\x00\x00\x07\
        \x00\x00\x00\x04\
        a\x00";

    assert_eq!(
        Pdu::parse(&PDU[..]).unwrap_err().to_string(),
        "Error parsing PDU (\
        command_id=0x80000004, command_status=0x00000007, \
        sequence_number=0x00000004, field_name=UNKNOWN): \
        PDU body must not be supplied when status is not zero, but \
        command_status is 0x00000007.",
    );
}

#[test]
fn parse_unknown_command_id_is_an_error() {
    const PDU: &[u8; 0x10] = b"\x00\x00\x00\x10\xff\x00\x00\x00\x00\x00\x00\x00\x00\x00\x00\x22";

    let err = Pdu::parse(&PDU[..]).unwrap_err();
    assert_eq!(
        err.to_string(),
        "Error parsing PDU (\
        command_id=0xFF000000, command_status=0x00000000, \
        sequence_number=0x00000022, field_name=UNKNOWN): \
        Supplied command_id is unknown.",
    );
}

#[test]
fn parse_frame_longer_than_body_is_an_error() {
    // An enquire_link whose declared length leaves two stray bytes.
    const PDU: &[u8; 0x12] =
        b"\x00\x00\x00\x12\x00\x00\x00\x15\x00\x00\x00\x00\x00\x00\x00\x12\x61\x62";

    let err = Pdu::parse(&PDU[..]).unwrap_err();
    assert_eq!(err.body, smpp::pduparseerror::PduParseErrorBody::LengthLongerThanPdu(0x12));
}
