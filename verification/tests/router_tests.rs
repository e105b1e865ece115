use smpp::esm_class::DeliverEsmClass;
use smpp::message_unique_key::MessageUniqueKey;
use smpp::operations::DeliverSmPdu;
use smpp::pdu::{Pdu, PduBody};
use smpp::smsc::{RouterError, Smsc};

fn new_deliver_sm_pdu(short_message: &[u8]) -> Pdu {
    Pdu::new(
        0x00,
        0x6d,
        PduBody::DeliverSm(
            DeliverSmPdu::new(
                "",
                0,
                0,
                "src_addr",
                0,
                0,
                "dest_addr",
                DeliverEsmClass::SmscDeliveryReceipt.value(),
                0x34,
                1,
                "",
                "",
                1,
                0,
                3,
                0,
                short_message,
            )
            .unwrap(),
        ),
    )
    .unwrap()
}

#[test]
fn when_we_receive_deliver_sm_for_a_message_we_route_it_to_its_connection() {
    let mut smsc = Smsc::new(100);
    smsc.add_connection(MessageUniqueKey::new("testsystem", "8765", ""), 7);
    smsc.add_connection(MessageUniqueKey::new("testsystem", "1111", ""), 9);

    let pdu = new_deliver_sm_pdu(b"id:8765");
    assert_eq!(smsc.receive_pdu(&pdu), Ok(7));

    // The other registered message still routes to its own connection.
    let other = new_deliver_sm_pdu(b"id:1111");
    assert_eq!(smsc.receive_pdu(&other), Ok(9));

    // The routed bytes are exactly the PDU's wire image.
    let mut buf = Vec::new();
    pdu.write(&mut buf);
    assert_eq!(Pdu::parse(&buf[..]).unwrap(), pdu);
}

#[test]
fn unknown_message_id_is_reported() {
    let smsc = Smsc::new(100);
    let pdu = new_deliver_sm_pdu(b"id:8765");
    assert_eq!(smsc.receive_pdu(&pdu), Err(RouterError::UnknownMessage));
}

#[test]
fn short_message_without_id_prefix_is_reported() {
    let mut smsc = Smsc::new(100);
    smsc.add_connection(MessageUniqueKey::new("testsystem", "8765", ""), 7);
    let pdu = new_deliver_sm_pdu(b"8765");
    assert_eq!(smsc.receive_pdu(&pdu), Err(RouterError::UnknownMessage));
}

#[test]
fn non_deliver_sm_cannot_be_routed() {
    let smsc = Smsc::new(100);
    let req = b"\x00\x00\x00\x10\x00\x00\x00\x15\x00\x00\x00\x00\x00\x00\x00\x12";
    let pdu = Pdu::parse(&req[..]).unwrap();
    assert_eq!(smsc.receive_pdu(&pdu), Err(RouterError::UnexpectedPduType));
}

#[test]
fn re_registering_a_message_id_moves_it_to_the_new_connection() {
    let mut smsc = Smsc::new(100);
    smsc.add_connection(MessageUniqueKey::new("testsystem", "8765", ""), 7);
    smsc.add_connection(MessageUniqueKey::new("testsystem", "8765", ""), 8);
    let pdu = new_deliver_sm_pdu(b"id:8765");
    assert_eq!(smsc.receive_pdu(&pdu), Ok(8));
}

#[test]
fn closing_a_connection_unregisters_its_messages() {
    let mut smsc = Smsc::new(100);
    smsc.add_connection(MessageUniqueKey::new("testsystem", "8765", ""), 7);
    smsc.add_connection(MessageUniqueKey::new("testsystem", "1111", ""), 9);
    smsc.remove_connection(7);
    assert_eq!(
        smsc.receive_pdu(&new_deliver_sm_pdu(b"id:8765")),
        Err(RouterError::UnknownMessage)
    );
    assert_eq!(smsc.receive_pdu(&new_deliver_sm_pdu(b"id:1111")), Ok(9));
}

#[test]
fn disconnects_clients_when_overloaded() {
    // With max_open_sockets = 2, the third concurrent admission is
    // refused while the earlier two stand.
    let mut smsc = Smsc::new(2);
    assert!(smsc.try_admit());
    assert!(smsc.try_admit());
    assert!(!smsc.try_admit());
    // Once one connection closes, a new one is admitted again.
    smsc.release();
    assert!(smsc.try_admit());
}

#[test]
fn extract_receipted_message_id_reads_the_prefix() {
    let deliver_sm = DeliverSmPdu::new(
        "", 0, 0, "", 0, 0, "", 0, 0, 0, "", "", 0, 0, 0, 0, b"id:0123456789",
    )
    .unwrap();
    assert_eq!(
        deliver_sm.extract_receipted_message_id().unwrap(),
        "0123456789"
    );
}

#[test]
fn when_id_is_at_start_of_short_message_and_no_tlv_we_can_extract_id() {
    let deliver_sm = DeliverSmPdu::new(
        "", 0, 0, "", 0, 0, "", 0, 0, 0, "", "", 0, 0, 0, 0, b"id:0123456789",
    )
    .unwrap();
    assert_eq!(
        deliver_sm.extract_receipted_message_id().unwrap(),
        "0123456789"
    );
}

#[test]
fn source_addr_returns_the_submitters_address() {
    let deliver_sm = DeliverSmPdu::new(
        "", 0, 0, "src_addr", 0, 0, "", 0, 0, 0, "", "", 0, 0, 0, 0, b"",
    )
    .unwrap();
    assert_eq!(deliver_sm.source_addr(), "src_addr");
}

#[test]
fn a_delivery_is_attempted_once() {
    let mut smsc = Smsc::new(100);
    smsc.add_connection(MessageUniqueKey::new("testsystem", "8765", ""), 7);
    let pdu = new_deliver_sm_pdu(b"id:8765");
    assert_eq!(smsc.receive_pdu(&pdu), Ok(7));
    smsc.remove_message("8765");
    assert_eq!(smsc.receive_pdu(&pdu), Err(RouterError::UnknownMessage));
}

#[test]
fn extract_receipted_message_id_accepts_utf8() {
    let deliver_sm = DeliverSmPdu::new(
        "", 0, 0, "", 0, 0, "", 0, 0, 0, "", "", 0, 0, 0, 0, b"id:caf\xc3\xa9",
    )
    .unwrap();
    assert_eq!(deliver_sm.extract_receipted_message_id().unwrap(), "caf\u{e9}");

    let four_byte = DeliverSmPdu::new(
        "", 0, 0, "", 0, 0, "", 0, 0, 0, "", "", 0, 0, 0, 0, b"id:\xf0\x9f\x92\xa9",
    )
    .unwrap();
    assert_eq!(
        four_byte.extract_receipted_message_id().unwrap(),
        "\u{1F4A9}"
    );
}

#[test]
fn extract_receipted_message_id_rejects_invalid_utf8() {
    let cases: [&[u8]; 4] = [
        b"id:\xff",          // a byte no encoding starts with
        b"id:\xc3",          // a truncated two-byte encoding
        b"id:\xed\xa0\x80",  // a surrogate
        b"id:\xc0\xaf",      // an overlong encoding
    ];
    for short_message in cases {
        let deliver_sm = DeliverSmPdu::new(
            "", 0, 0, "", 0, 0, "", 0, 0, 0, "", "", 0, 0, 0, 0, short_message,
        )
        .unwrap();
        assert_eq!(deliver_sm.extract_receipted_message_id(), None);
    }
}

#[test]
fn utf8_message_ids_route_like_any_other() {
    let mut smsc = Smsc::new(100);
    smsc.add_connection(MessageUniqueKey::new("testsystem", "caf\u{e9}", ""), 7);
    let pdu = new_deliver_sm_pdu(b"id:caf\xc3\xa9");
    assert_eq!(smsc.receive_pdu(&pdu), Ok(7));
}
