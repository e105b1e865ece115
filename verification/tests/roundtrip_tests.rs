use smpp::operations::{
    BindReceiverPdu, BindReceiverRespPdu, BindTransceiverPdu, BindTransceiverRespPdu,
    BindTransmitterPdu, BindTransmitterRespPdu, DeliverSmPdu, DeliverSmRespPdu, EnquireLinkPdu,
    EnquireLinkRespPdu, GenericNackPdu, SubmitSmPdu, SubmitSmRespPdu,
};
use smpp::pdu::{Pdu, PduBody};

fn assert_roundtrip(pdu: Pdu) {
    let mut buf = Vec::new();
    pdu.write(&mut buf);
    // The emitted command_length equals the total byte length.
    let declared = u32::from_be_bytes([buf[0], buf[1], buf[2], buf[3]]);
    assert_eq!(declared as usize, buf.len());
    assert_eq!(Pdu::parse(&buf[..]).unwrap(), pdu);
}

#[test]
fn bind_transmitter_roundtrips() {
    assert_roundtrip(
        Pdu::new(
            0,
            0x01020344,
            PduBody::BindTransmitter(
                BindTransmitterPdu::new("mysystem_ID", "pw$xx", "t_p_", 0x34, 0x13, 0x50, "rng")
                    .unwrap(),
            ),
        )
        .unwrap(),
    );
}

#[test]
fn bind_receiver_roundtrips() {
    assert_roundtrip(
        Pdu::new(
            0,
            8,
            PduBody::BindReceiver(
                BindReceiverPdu::new("esmeid", "password", "type", 0x34, 0, 0, "").unwrap(),
            ),
        )
        .unwrap(),
    );
}

#[test]
fn bind_transceiver_roundtrips() {
    assert_roundtrip(
        Pdu::new(
            0,
            6,
            PduBody::BindTransceiver(
                BindTransceiverPdu::new("esmeid", "password", "type", 0x34, 0, 0, "").unwrap(),
            ),
        )
        .unwrap(),
    );
}

#[test]
fn bind_resp_roundtrips() {
    assert_roundtrip(
        Pdu::new(
            0,
            2,
            PduBody::BindTransmitterResp(BindTransmitterRespPdu::new("TestServer").unwrap()),
        )
        .unwrap(),
    );
    assert_roundtrip(
        Pdu::new(
            0,
            2,
            PduBody::BindReceiverResp(BindReceiverRespPdu::new("TestServer").unwrap()),
        )
        .unwrap(),
    );
    assert_roundtrip(
        Pdu::new(
            0,
            2,
            PduBody::BindTransceiverResp(BindTransceiverRespPdu::new("TestServer").unwrap()),
        )
        .unwrap(),
    );
}

#[test]
fn bind_resp_error_roundtrips() {
    assert_roundtrip(
        Pdu::new(
            0x0e,
            6,
            PduBody::BindTransceiverResp(BindTransceiverRespPdu::new_error()),
        )
        .unwrap(),
    );
}

#[test]
fn submit_sm_roundtrips() {
    assert_roundtrip(
        Pdu::new(
            0,
            0x2f,
            PduBody::SubmitSm(
                SubmitSmPdu::new(
                    "",
                    0,
                    0,
                    "src_addr",
                    0,
                    0,
                    "dest_addr",
                    0,
                    0x34,
                    1,
                    "",
                    "",
                    1,
                    0,
                    3,
                    0,
                    b"dr \xffpls",
                )
                .unwrap(),
            ),
        )
        .unwrap(),
    );
}

#[test]
fn submit_sm_with_absolute_times_roundtrips() {
    assert_roundtrip(
        Pdu::new(
            0,
            0x2f,
            PduBody::SubmitSm(
                SubmitSmPdu::new(
                    "srvc",
                    1,
                    2,
                    "src",
                    3,
                    4,
                    "dest",
                    0,
                    0,
                    0,
                    "0102030405060708",
                    "1112131415161718",
                    0,
                    0,
                    0,
                    0,
                    b"hello",
                )
                .unwrap(),
            ),
        )
        .unwrap(),
    );
}

#[test]
fn deliver_sm_roundtrips() {
    assert_roundtrip(
        Pdu::new(
            0,
            0x6d,
            PduBody::DeliverSm(
                DeliverSmPdu::new(
                    "", 0, 0, "src_addr", 0, 0, "dest_addr", 4, 0x34, 1, "", "", 1, 0, 3, 0,
                    b"id:8765",
                )
                .unwrap(),
            ),
        )
        .unwrap(),
    );
}

#[test]
fn sm_resp_roundtrips() {
    assert_roundtrip(
        Pdu::new(
            0,
            0x2f,
            PduBody::SubmitSmResp(SubmitSmRespPdu::new_ok("8765").unwrap()),
        )
        .unwrap(),
    );
    assert_roundtrip(
        Pdu::new(
            8,
            0x2f,
            PduBody::SubmitSmResp(SubmitSmRespPdu::new_error()),
        )
        .unwrap(),
    );
    assert_roundtrip(
        Pdu::new(
            0,
            0x6d,
            PduBody::DeliverSmResp(DeliverSmRespPdu::new_ok("8765").unwrap()),
        )
        .unwrap(),
    );
    assert_roundtrip(
        Pdu::new(
            8,
            0x6d,
            PduBody::DeliverSmResp(DeliverSmRespPdu::new_error()),
        )
        .unwrap(),
    );
}

#[test]
fn empty_bodies_roundtrip() {
    assert_roundtrip(Pdu::new(0, 0x12, PduBody::EnquireLink(EnquireLinkPdu::new())).unwrap());
    assert_roundtrip(
        Pdu::new(0, 0x12, PduBody::EnquireLinkResp(EnquireLinkRespPdu::new())).unwrap(),
    );
    assert_roundtrip(
        Pdu::new(3, 0x22, PduBody::GenericNack(GenericNackPdu::new_error())).unwrap(),
    );
}

#[test]
fn emitted_bind_transmitter_matches_reference_bytes() {
    let pdu = Pdu::new(
        0,
        2,
        PduBody::BindTransmitter(
            BindTransmitterPdu::new("esmeid", "password", "type", 0x34, 0, 0, "").unwrap(),
        ),
    )
    .unwrap();
    let mut buf = Vec::new();
    pdu.write(&mut buf);
    assert_eq!(
        buf,
        b"\x00\x00\x00\x29\x00\x00\x00\x02\x00\x00\x00\x00\x00\x00\x00\x02\
          esmeid\0password\0type\0\x34\x00\x00\0"
            .to_vec()
    );
}

#[test]
fn largest_short_message_roundtrips() {
    let payload = [0x41u8; 254];
    assert_roundtrip(
        Pdu::new(
            0,
            1,
            PduBody::SubmitSm(
                SubmitSmPdu::new(
                    "", 0, 0, "src", 0, 0, "dest", 0, 0, 0, "", "", 0, 0, 0, 0, &payload,
                )
                .unwrap(),
            ),
        )
        .unwrap(),
    );
}

#[test]
fn longest_fields_roundtrip() {
    assert_roundtrip(
        Pdu::new(
            0,
            1,
            PduBody::BindTransmitter(
                BindTransmitterPdu::new(
                    "123456789012345",
                    "12345678",
                    "123456789012",
                    0x34,
                    0xff,
                    0xff,
                    "1234567890123456789012345678901234567890",
                )
                .unwrap(),
            ),
        )
        .unwrap(),
    );
}

#[test]
fn frame_length_reports_the_declared_length() {
    let pdu = Pdu::new(0, 0x12, PduBody::EnquireLink(EnquireLinkPdu::new())).unwrap();
    let mut buf = Vec::new();
    pdu.write(&mut buf);
    buf.extend_from_slice(b"extrabytes");
    assert_eq!(smpp::check::frame_length(&buf[..]), 16);
}

#[test]
fn header_only_success_response_cannot_be_built() {
    let err = Pdu::new(
        0,
        4,
        PduBody::SubmitSmResp(SubmitSmRespPdu::new_error()),
    )
    .unwrap_err();
    assert_eq!(
        err.body,
        smpp::pduparseerror::PduParseErrorBody::COctetStringDoesNotEndWithNul
    );
    assert_eq!(err.field_name, Some(String::from("message_id")));

    let err = Pdu::new(
        0,
        2,
        PduBody::BindTransmitterResp(BindTransmitterRespPdu::new_error()),
    )
    .unwrap_err();
    assert_eq!(
        err.body,
        smpp::pduparseerror::PduParseErrorBody::COctetStringDoesNotEndWithNul
    );
    assert_eq!(err.field_name, Some(String::from("system_id")));
}
