use smpp::formats::{COctetString, Integer1, Integer4, OctetString};
use smpp::pduparseerror::PduParseErrorBody;

#[test]
fn read_integer1() {
    let bytes: &[u8] = &[0x23];
    assert_eq!(
        Integer1::read(bytes, 0, bytes.len()).unwrap(),
        (Integer1::new(0x23), 1)
    );
}

#[test]
fn read_integer4() {
    let bytes: &[u8] = &[0xf0, 0x00, 0x00, 0x23];
    assert_eq!(
        Integer4::read(bytes, 0, bytes.len()).unwrap(),
        (Integer4::new(0xf0000023), 4)
    );
}

#[test]
fn pdu_types_read_integer1() {
    let bytes: &[u8] = &[0x23];
    assert_eq!(
        Integer1::read(bytes, 0, bytes.len()).unwrap(),
        (Integer1::new(0x23), 1)
    );
}

#[test]
fn pdu_types_read_integer4() {
    let bytes: &[u8] = &[0xf0, 0x00, 0x00, 0x23];
    assert_eq!(
        Integer4::read(bytes, 0, bytes.len()).unwrap(),
        (Integer4::new(0xf0000023), 4)
    );
}

#[test]
fn read_integer1_fails_on_empty_input() {
    let bytes: &[u8] = &[];
    let err = Integer1::read(bytes, 0, 0).unwrap_err();
    assert_eq!(err.body, PduParseErrorBody::NotEnoughBytes);
}

#[test]
fn read_integer4_fails_on_short_input() {
    let bytes: &[u8] = &[0x01, 0x02, 0x03];
    let err = Integer4::read(bytes, 0, 3).unwrap_err();
    assert_eq!(err.body, PduParseErrorBody::NotEnoughBytes);
}

#[test]
fn write_integer1() {
    let mut buf: Vec<u8> = Vec::new();
    Integer1::new(0xfe).write(&mut buf);
    assert_eq!(buf, vec![0xfe]);
}

#[test]
fn write_integer4() {
    let mut buf: Vec<u8> = Vec::new();
    Integer4::new(0x101010fe).write(&mut buf);
    assert_eq!(buf, vec![0x10, 0x10, 0x10, 0xfe]);
}

#[test]
fn read_coctetstring() {
    let bytes = "foobar\0".as_bytes();
    assert_eq!(
        COctetString::read(bytes, 0, bytes.len(), 20).unwrap(),
        (COctetString::new("foobar", 20), 7)
    );
}

#[test]
fn formats_read_coctetstring() {
    let bytes = "foobar\0".as_bytes();
    assert_eq!(
        COctetString::read(bytes, 0, bytes.len(), 20).unwrap(),
        (COctetString::new("foobar", 20), 7)
    );
}

#[test]
fn pdu_types_read_coctetstring() {
    let bytes = "foobar\0".as_bytes();
    assert_eq!(
        COctetString::read(bytes, 0, bytes.len(), 20).unwrap(),
        (COctetString::new("foobar", 20), 7)
    );
}

#[test]
fn read_coctetstring_max_length() {
    let bytes = "thisislong\0".as_bytes();
    assert_eq!(
        COctetString::read(bytes, 0, bytes.len(), 11).unwrap(),
        (COctetString::new("thisislong", 11), 11)
    );
}

#[test]
fn read_coctetstring_missing_zero_byte() {
    let bytes = "foobar".as_bytes();
    let err = COctetString::read(bytes, 0, bytes.len(), 20).unwrap_err();
    assert_eq!(err.body, PduParseErrorBody::COctetStringDoesNotEndWithNul);
}

#[test]
fn read_coctetstring_too_long() {
    let bytes = "foobar\0".as_bytes();
    let err = COctetString::read(bytes, 0, bytes.len(), 3).unwrap_err();
    assert_eq!(err.body, PduParseErrorBody::COctetStringTooLong(3));
}

#[test]
fn read_coctetstring_zero_not_included_in_length() {
    let bytes = "foobar\0".as_bytes();
    let err = COctetString::read(bytes, 0, bytes.len(), 6).unwrap_err();
    assert_eq!(err.body, PduParseErrorBody::COctetStringTooLong(6));
}

#[test]
fn read_coctetstring_rejects_non_ascii_with_position() {
    let bytes = b"mys\xf0\x9f\x92\xa9m_ID\0";
    let err = COctetString::read(bytes, 0, bytes.len(), 16).unwrap_err();
    assert_eq!(err.body, PduParseErrorBody::COctetStringNotAscii(3));
}

#[test]
fn write_coctetstring() {
    let mut buf: Vec<u8> = Vec::new();
    let val = COctetString::new("abc", 16);
    val.write(&mut buf);
    assert_eq!(buf, vec![b'a', b'b', b'c', 0x00]);
}

#[test]
fn coctetstring_from_str_rejects_too_long() {
    let err = COctetString::from_str("foobar", 3).unwrap_err();
    assert_eq!(err.body, PduParseErrorBody::COctetStringTooLong(3));
}

#[test]
fn coctetstring_len_excludes_terminator() {
    assert_eq!(COctetString::new("foobar", 20).len(), 6);
}

#[test]
fn octetstring_from_bytes_rejects_too_long() {
    let err = OctetString::from_bytes(&[0u8; 10], 4).unwrap_err();
    assert_eq!(err.body, PduParseErrorBody::COctetStringTooLong(4));
}
