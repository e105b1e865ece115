use smpp::pdu::{Pdu, PduBody};
use smpp::session::{
    dispatch_pdu, handle_bind_outcome, handle_enquire_link, handle_pdu_parse_error,
    handle_submit_sm_outcome, handle_unexpected_pdu, BindKind, Dispatch, SessionRole,
};
use smpp::operations::SubmitSmRespPdu;
use smpp::smsc_logic::{BindError, SubmitSmError};

fn write_bytes(pdu: &Pdu) -> Vec<u8> {
    let mut buf = Vec::new();
    pdu.write(&mut buf);
    buf
}

#[test]
fn bind_transmitter_roundtrip_produces_exact_response_bytes() {
    // Client sends bind_transmitter, sequence_number = 2.
    let req = b"\x00\x00\x00\x29\x00\x00\x00\x02\x00\x00\x00\x00\x00\x00\x00\x02\
        esmeid\0password\0type\0\x34\x00\x00\0";
    let pdu = Pdu::parse(&req[..]).unwrap();
    assert_eq!(
        dispatch_pdu(&pdu, SessionRole::Unbound),
        Dispatch::CallBind(BindKind::Transmitter)
    );
    let (resp, role) = handle_bind_outcome(
        BindKind::Transmitter,
        &Ok(()),
        "TestServer",
        pdu.sequence_number.value,
    )
    .unwrap();
    assert_eq!(role, SessionRole::Transmitter);
    assert_eq!(
        write_bytes(&resp),
        b"\x00\x00\x00\x1b\x80\x00\x00\x02\x00\x00\x00\x00\x00\x00\x00\x02TestServer\0".to_vec()
    );
}

#[test]
fn bind_receiver_roundtrip_produces_exact_response_bytes() {
    let req = b"\x00\x00\x00\x29\x00\x00\x00\x01\x00\x00\x00\x00\x00\x00\x00\x08\
        esmeid\0password\0type\0\x34\x00\x00\0";
    let pdu = Pdu::parse(&req[..]).unwrap();
    assert_eq!(
        dispatch_pdu(&pdu, SessionRole::Unbound),
        Dispatch::CallBind(BindKind::Receiver)
    );
    let (resp, role) =
        handle_bind_outcome(BindKind::Receiver, &Ok(()), "TestServer", 8).unwrap();
    assert_eq!(role, SessionRole::Receiver);
    assert_eq!(
        write_bytes(&resp),
        b"\x00\x00\x00\x1b\x80\x00\x00\x01\x00\x00\x00\x00\x00\x00\x00\x08TestServer\0".to_vec()
    );
}

#[test]
fn bind_transceiver_roundtrip_produces_exact_response_bytes() {
    let req = b"\x00\x00\x00\x29\x00\x00\x00\x09\x00\x00\x00\x00\x00\x00\x00\x06\
        esmeid\0password\0type\0\x34\x00\x00\0";
    let pdu = Pdu::parse(&req[..]).unwrap();
    assert_eq!(
        dispatch_pdu(&pdu, SessionRole::Unbound),
        Dispatch::CallBind(BindKind::Transceiver)
    );
    let (resp, role) =
        handle_bind_outcome(BindKind::Transceiver, &Ok(()), "TestServer", 6).unwrap();
    assert_eq!(role, SessionRole::Transceiver);
    assert_eq!(
        write_bytes(&resp),
        b"\x00\x00\x00\x1b\x80\x00\x00\x09\x00\x00\x00\x00\x00\x00\x00\x06TestServer\0".to_vec()
    );
}

#[test]
fn incorrect_password_produces_error_response_bytes() {
    // Logic rejects with IncorrectPassword: command_status = ESME_RINVPASWD.
    let (resp, role) = handle_bind_outcome(
        BindKind::Transceiver,
        &Err(BindError::IncorrectPassword),
        "TestServer",
        6,
    )
    .unwrap();
    assert_eq!(role, SessionRole::Unbound);
    assert_eq!(
        write_bytes(&resp),
        b"\x00\x00\x00\x10\x80\x00\x00\x09\x00\x00\x00\x0e\x00\x00\x00\x06".to_vec()
    );

    let (resp, _) = handle_bind_outcome(
        BindKind::Receiver,
        &Err(BindError::IncorrectPassword),
        "TestServer",
        6,
    )
    .unwrap();
    assert_eq!(
        write_bytes(&resp),
        b"\x00\x00\x00\x10\x80\x00\x00\x01\x00\x00\x00\x0e\x00\x00\x00\x06".to_vec()
    );

    let (resp, _) = handle_bind_outcome(
        BindKind::Transmitter,
        &Err(BindError::IncorrectPassword),
        "TestServer",
        6,
    )
    .unwrap();
    assert_eq!(
        write_bytes(&resp),
        b"\x00\x00\x00\x10\x80\x00\x00\x02\x00\x00\x00\x0e\x00\x00\x00\x06".to_vec()
    );
}

#[test]
fn enquire_link_produces_exact_response_bytes() {
    let req = b"\x00\x00\x00\x10\x00\x00\x00\x15\x00\x00\x00\x00\x00\x00\x00\x12";
    let pdu = Pdu::parse(&req[..]).unwrap();
    assert_eq!(
        dispatch_pdu(&pdu, SessionRole::Unbound),
        Dispatch::RespondEnquireLink
    );
    let resp = handle_enquire_link(pdu.sequence_number.value);
    assert_eq!(
        write_bytes(&resp),
        b"\x00\x00\x00\x10\x80\x00\x00\x15\x00\x00\x00\x00\x00\x00\x00\x12".to_vec()
    );
}

#[test]
fn malformed_non_ascii_system_id_produces_error_response_bytes() {
    // The server answers a bind_transmitter whose system_id is not
    // ASCII with a bind_transmitter_resp carrying ESME_RSYSERR.
    let req = b"\x00\x00\x00\x2e\x00\x00\x00\x02\x00\x00\x00\x00\x00\x00\x00\x02\
        mys\xf0\x9f\x92\xa9m_ID\0pw$xx\0t_p_\0\x34\x13\x50rng\0foobar";
    let err = Pdu::parse(&req[..]).unwrap_err();
    let resp = handle_pdu_parse_error(&err);
    assert_eq!(
        write_bytes(&resp),
        b"\x00\x00\x00\x10\x80\x00\x00\x02\x00\x00\x00\x08\x00\x00\x00\x02".to_vec()
    );
}

#[test]
fn invalid_command_id_produces_generic_nack_bytes() {
    let req = b"\x00\x00\x00\x10\xff\x00\x00\x00\x00\x00\x00\x00\x00\x00\x00\x22";
    let err = Pdu::parse(&req[..]).unwrap_err();
    let resp = handle_pdu_parse_error(&err);
    assert_eq!(
        write_bytes(&resp),
        b"\x00\x00\x00\x10\x80\x00\x00\x00\x00\x00\x00\x03\x00\x00\x00\x22".to_vec()
    );
}

#[test]
fn submit_sm_success_produces_resp_with_message_id() {
    let resp = handle_submit_sm_outcome(Ok(SubmitSmRespPdu::new_ok("8765").unwrap()), 0x2f);
    assert_eq!(
        write_bytes(&resp),
        b"\x00\x00\x00\x15\x80\x00\x00\x04\x00\x00\x00\x00\x00\x00\x00\x2f8765\0".to_vec()
    );
}

#[test]
fn submit_sm_failure_produces_header_only_resp() {
    let resp = handle_submit_sm_outcome(Err(SubmitSmError::InternalError), 0x2f);
    assert_eq!(
        write_bytes(&resp),
        b"\x00\x00\x00\x10\x80\x00\x00\x04\x00\x00\x00\x08\x00\x00\x00\x2f".to_vec()
    );
}

#[test]
fn submit_sm_needs_a_transmitting_role() {
    let req = b"\x00\x00\x00\x39\
        \x00\x00\x00\x04\
        \x00\x00\x00\x00\
        \x00\x00\x00\x03\
        \x00\
        \x00\x00447000123123\x00\
        \x00\x00447111222222\x00\
        \x00\x01\x01\x00\x00\x01\x00\x03\
        \x00\x00";
    let pdu = Pdu::parse(&req[..]).unwrap();
    assert_eq!(dispatch_pdu(&pdu, SessionRole::Transmitter), Dispatch::CallSubmitSm);
    assert_eq!(dispatch_pdu(&pdu, SessionRole::Transceiver), Dispatch::CallSubmitSm);
    assert_eq!(dispatch_pdu(&pdu, SessionRole::Unbound), Dispatch::Unexpected);
    assert_eq!(dispatch_pdu(&pdu, SessionRole::Receiver), Dispatch::Unexpected);
}

#[test]
fn binding_twice_is_unexpected() {
    let req = b"\x00\x00\x00\x29\x00\x00\x00\x02\x00\x00\x00\x00\x00\x00\x00\x02\
        esmeid\0password\0type\0\x34\x00\x00\0";
    let pdu = Pdu::parse(&req[..]).unwrap();
    assert_eq!(dispatch_pdu(&pdu, SessionRole::Transmitter), Dispatch::Unexpected);
}

#[test]
fn unexpected_pdu_is_nacked_with_invalid_command_id_status() {
    let resp = handle_unexpected_pdu(5);
    assert_eq!(
        write_bytes(&resp),
        b"\x00\x00\x00\x10\x80\x00\x00\x00\x00\x00\x00\x03\x00\x00\x00\x05".to_vec()
    );
    assert!(matches!(resp.body, PduBody::GenericNack(_)));
}
