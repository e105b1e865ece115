use smpp::check::{check, CheckError, CheckOutcome};
use smpp::pdu::Pdu;
use smpp::validate_command_length::CommandLengthError;

const BIND_TRANSMITTER_RESP_PDU_PLUS_EXTRA: &[u8; 0x1b + 0xa] =
    b"\x00\x00\x00\x1b\x80\x00\x00\x02\x00\x00\x00\x00\x00\x00\x00\x02TestServer\0extrabytes";

#[test]
fn check_is_ok_if_more_bytes() {
    assert_eq!(
        check(&BIND_TRANSMITTER_RESP_PDU_PLUS_EXTRA[..]).unwrap(),
        CheckOutcome::Ready
    );
}

#[test]
fn check_is_ok_if_exact_bytes() {
    assert_eq!(
        check(&BIND_TRANSMITTER_RESP_PDU_PLUS_EXTRA[..0x1b]).unwrap(),
        CheckOutcome::Ready
    );
}

#[test]
fn check_is_incomplete_if_fewer_bytes() {
    assert_eq!(
        check(&BIND_TRANSMITTER_RESP_PDU_PLUS_EXTRA[..0x1a]).unwrap(),
        CheckOutcome::Incomplete
    );
}

#[test]
fn check_errors_if_short_length() {
    const PDU: &[u8; 4] = b"\x00\x00\x00\x04";
    let res = check(&PDU[..]).unwrap_err();
    assert!(matches!(
        res,
        CheckError::CommandLengthError(CommandLengthError::TooShort(4))
    ));
}

#[test]
fn check_errors_without_reading_all_if_long_length() {
    const PDU: &[u8; 16] = b"\xff\xff\xff\xff\x00\x00\x00\x02\x00\x00\x00\x00\x00\x00\x00\x00";
    let res = check(&PDU[..]).unwrap_err();
    assert!(matches!(
        res,
        CheckError::CommandLengthError(CommandLengthError::TooLong(4294967295))
    ));
}

#[test]
fn check_is_incomplete_if_under_four_bytes() {
    assert_eq!(check(b"\x00\x00\x00").unwrap(), CheckOutcome::Incomplete);
}

#[test]
fn pdu_check_is_ok_if_more_bytes() {
    assert_eq!(
        Pdu::check(&BIND_TRANSMITTER_RESP_PDU_PLUS_EXTRA[..]).unwrap(),
        CheckOutcome::Ready
    );
}

#[test]
fn pdu_check_is_ok_if_exact_bytes() {
    assert_eq!(
        Pdu::check(&BIND_TRANSMITTER_RESP_PDU_PLUS_EXTRA[..0x1b]).unwrap(),
        CheckOutcome::Ready
    );
}

#[test]
fn pdu_check_is_incomplete_if_fewer_bytes() {
    assert_eq!(
        Pdu::check(&BIND_TRANSMITTER_RESP_PDU_PLUS_EXTRA[..0x1a]).unwrap(),
        CheckOutcome::Incomplete
    );
}

#[test]
fn pdu_check_errors_without_reading_all_if_long_length() {
    const PDU: &[u8; 16] = b"\xff\xff\xff\xff\x00\x00\x00\x02\x00\x00\x00\x00\x00\x00\x00\x00";
    let res = Pdu::check(&PDU[..]).unwrap_err();
    assert!(matches!(
        res,
        CheckError::CommandLengthError(CommandLengthError::TooLong(4294967295))
    ));
}

#[test]
fn pdu_enum_check_is_ok_if_more_bytes() {
    assert_eq!(
        Pdu::check(&BIND_TRANSMITTER_RESP_PDU_PLUS_EXTRA[..]).unwrap(),
        CheckOutcome::Ready
    );
}

#[test]
fn pdu_enum_check_is_incomplete_if_fewer_bytes() {
    assert_eq!(
        Pdu::check(&BIND_TRANSMITTER_RESP_PDU_PLUS_EXTRA[..0x1a]).unwrap(),
        CheckOutcome::Incomplete
    );
}
