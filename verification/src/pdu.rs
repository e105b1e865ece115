//! The PDU itself: the sixteen-byte header joined to one of the
//! supported operation bodies.  `command_length` is never stored; it
//! is derived when writing and validated when parsing.

use vstd::prelude::*;

use crate::check::{spec_check, CheckError, CheckOutcome};
use crate::formats::{spec_be32, spec_u32_bytes, Integer4};
use crate::operations::{
    BindReceiverPdu, BindReceiverRespPdu, BindTransceiverPdu, BindTransceiverRespPdu,
    BindTransmitterPdu, BindTransmitterRespPdu, DeliverSmPdu, DeliverSmRespPdu, EnquireLinkPdu,
    EnquireLinkRespPdu, GenericNackPdu, SubmitSmPdu, SubmitSmRespPdu,
};
use crate::bind_data::{spec_read_bind_data, BindDataV};
use crate::pduparseerror::{ErrBodyV, ErrV, PduParseError, PduParseErrorBody};
use crate::resp_data::{
    resp_wf, resp_wire, spec_read_resp_data, MAX_LENGTH_MESSAGE_ID, MAX_LENGTH_RESP_SYSTEM_ID,
};
use crate::sm_data::{spec_read_sm_data, SmDataV};
use crate::validate_command_length::{
    spec_validate_command_length, validate_command_length, CommandLengthError,
};

verus! {

/// One supported operation body.
#[derive(Debug, PartialEq, Clone)]
pub enum PduBody {
    BindReceiver(BindReceiverPdu),
    BindReceiverResp(BindReceiverRespPdu),
    BindTransmitter(BindTransmitterPdu),
    BindTransmitterResp(BindTransmitterRespPdu),
    BindTransceiver(BindTransceiverPdu),
    BindTransceiverResp(BindTransceiverRespPdu),
    SubmitSm(SubmitSmPdu),
    SubmitSmResp(SubmitSmRespPdu),
    DeliverSm(DeliverSmPdu),
    DeliverSmResp(DeliverSmRespPdu),
    EnquireLink(EnquireLinkPdu),
    EnquireLinkResp(EnquireLinkRespPdu),
    GenericNack(GenericNackPdu),
}

/// The mathematical value of a body.
pub enum PduBodyV {
    BindReceiver(BindDataV),
    BindReceiverResp(Option<Seq<u8>>),
    BindTransmitter(BindDataV),
    BindTransmitterResp(Option<Seq<u8>>),
    BindTransceiver(BindDataV),
    BindTransceiverResp(Option<Seq<u8>>),
    SubmitSm(SmDataV),
    SubmitSmResp(Option<Seq<u8>>),
    DeliverSm(SmDataV),
    DeliverSmResp(Option<Seq<u8>>),
    EnquireLink,
    EnquireLinkResp,
    GenericNack,
}

impl View for PduBody {
    type V = PduBodyV;

    open spec fn view(&self) -> PduBodyV {
        match self {
            PduBody::BindReceiver(p) => PduBodyV::BindReceiver(p@),
            PduBody::BindReceiverResp(p) => PduBodyV::BindReceiverResp(p@),
            PduBody::BindTransmitter(p) => PduBodyV::BindTransmitter(p@),
            PduBody::BindTransmitterResp(p) => PduBodyV::BindTransmitterResp(p@),
            PduBody::BindTransceiver(p) => PduBodyV::BindTransceiver(p@),
            PduBody::BindTransceiverResp(p) => PduBodyV::BindTransceiverResp(p@),
            PduBody::SubmitSm(p) => PduBodyV::SubmitSm(p@),
            PduBody::SubmitSmResp(p) => PduBodyV::SubmitSmResp(p@),
            PduBody::DeliverSm(p) => PduBodyV::DeliverSm(p@),
            PduBody::DeliverSmResp(p) => PduBodyV::DeliverSmResp(p@),
            PduBody::EnquireLink(_) => PduBodyV::EnquireLink,
            PduBody::EnquireLinkResp(_) => PduBodyV::EnquireLinkResp,
            PduBody::GenericNack(_) => PduBodyV::GenericNack,
        }
    }
}

impl PduBodyV {
    /// The command id this body travels under.
    pub open spec fn cid(self) -> u32 {
        match self {
            PduBodyV::BindReceiver(_) => 0x00000001,
            PduBodyV::BindReceiverResp(_) => 0x80000001,
            PduBodyV::BindTransmitter(_) => 0x00000002,
            PduBodyV::BindTransmitterResp(_) => 0x80000002,
            PduBodyV::BindTransceiver(_) => 0x00000009,
            PduBodyV::BindTransceiverResp(_) => 0x80000009,
            PduBodyV::SubmitSm(_) => 0x00000004,
            PduBodyV::SubmitSmResp(_) => 0x80000004,
            PduBodyV::DeliverSm(_) => 0x00000005,
            PduBodyV::DeliverSmResp(_) => 0x80000005,
            PduBodyV::EnquireLink => 0x00000015,
            PduBodyV::EnquireLinkResp => 0x80000015,
            PduBodyV::GenericNack => 0x80000000,
        }
    }

    /// The bytes this body occupies on the wire.
    pub open spec fn wire(self) -> Seq<u8> {
        match self {
            PduBodyV::BindReceiver(v) => v.wire(),
            PduBodyV::BindReceiverResp(v) => resp_wire(v),
            PduBodyV::BindTransmitter(v) => v.wire(),
            PduBodyV::BindTransmitterResp(v) => resp_wire(v),
            PduBodyV::BindTransceiver(v) => v.wire(),
            PduBodyV::BindTransceiverResp(v) => resp_wire(v),
            PduBodyV::SubmitSm(v) => v.wire(),
            PduBodyV::SubmitSmResp(v) => resp_wire(v),
            PduBodyV::DeliverSm(v) => v.wire(),
            PduBodyV::DeliverSmResp(v) => resp_wire(v),
            PduBodyV::EnquireLink => Seq::empty(),
            PduBodyV::EnquireLinkResp => Seq::empty(),
            PduBodyV::GenericNack => Seq::empty(),
        }
    }

    /// Every field of the body is acceptable for its wire format.
    pub open spec fn wf(self) -> bool {
        match self {
            PduBodyV::BindReceiver(v) => v.wf(),
            PduBodyV::BindReceiverResp(v) => resp_wf(v, MAX_LENGTH_RESP_SYSTEM_ID as int),
            PduBodyV::BindTransmitter(v) => v.wf(),
            PduBodyV::BindTransmitterResp(v) => resp_wf(v, MAX_LENGTH_RESP_SYSTEM_ID as int),
            PduBodyV::BindTransceiver(v) => v.wf(),
            PduBodyV::BindTransceiverResp(v) => resp_wf(v, MAX_LENGTH_RESP_SYSTEM_ID as int),
            PduBodyV::SubmitSm(v) => v.wf(),
            PduBodyV::SubmitSmResp(v) => resp_wf(v, MAX_LENGTH_MESSAGE_ID as int),
            PduBodyV::DeliverSm(v) => v.wf(),
            PduBodyV::DeliverSmResp(v) => resp_wf(v, MAX_LENGTH_MESSAGE_ID as int),
            PduBodyV::EnquireLink => true,
            PduBodyV::EnquireLinkResp => true,
            PduBodyV::GenericNack => true,
        }
    }

    /// Whether this body is a request: one whose `command_status`
    /// must be zero.
    pub open spec fn is_request(self) -> bool {
        match self {
            PduBodyV::BindReceiver(_) => true,
            PduBodyV::BindTransmitter(_) => true,
            PduBodyV::BindTransceiver(_) => true,
            PduBodyV::SubmitSm(_) => true,
            PduBodyV::DeliverSm(_) => true,
            PduBodyV::EnquireLink => true,
            _ => false,
        }
    }

    /// The string a response body carries, when it carries one.
    pub open spec fn resp_value(self) -> Option<Seq<u8>> {
        match self {
            PduBodyV::BindReceiverResp(v) => v,
            PduBodyV::BindTransmitterResp(v) => v,
            PduBodyV::BindTransceiverResp(v) => v,
            PduBodyV::SubmitSmResp(v) => v,
            PduBodyV::DeliverSmResp(v) => v,
            _ => None,
        }
    }

    /// The name of the one string field a valued response carries.
    pub open spec fn resp_field(self) -> Seq<char> {
        match self {
            PduBodyV::BindReceiverResp(_) => "system_id"@,
            PduBodyV::BindTransmitterResp(_) => "system_id"@,
            PduBodyV::BindTransceiverResp(_) => "system_id"@,
            PduBodyV::SubmitSmResp(_) => "message_id"@,
            PduBodyV::DeliverSmResp(_) => "message_id"@,
            _ => Seq::empty(),
        }
    }

    /// Whether this body is a response that can carry a value.
    pub open spec fn is_valued_resp(self) -> bool {
        match self {
            PduBodyV::BindReceiverResp(_) => true,
            PduBodyV::BindTransmitterResp(_) => true,
            PduBodyV::BindTransceiverResp(_) => true,
            PduBodyV::SubmitSmResp(_) => true,
            PduBodyV::DeliverSmResp(_) => true,
            _ => false,
        }
    }
}

/// What a body may travel with: a request demands a zero status; a
/// populated response body demands one too; and a success response
/// must carry its body.  A header-only response under a zero status is
/// rejected with the error its wire image would parse to: the string
/// that should follow the header does not end with a NUL, because it
/// is not there at all.
pub open spec fn spec_validate_status(bv: PduBodyV, status: u32) -> Result<(), ErrV> {
    if bv.is_request() {
        if status == 0 {
            Ok(())
        } else {
            Err(ErrV::plain(ErrBodyV::StatusIsNotZero(status)).with_field("command_status"@))
        }
    } else if bv.is_valued_resp() && bv.resp_value() is Some && status != 0 {
        Err(
            ErrV::plain(ErrBodyV::BodyNotAllowedWhenStatusIsNotZero(status)).with_field(
                "command_status"@,
            ),
        )
    } else if bv.is_valued_resp() && bv.resp_value() is None && status == 0 {
        Err(ErrV::plain(ErrBodyV::COctetStringDoesNotEndWithNul).with_field(bv.resp_field()))
    } else {
        Ok(())
    }
}

impl PduBody {
    /// Check this body against a `command_status`.
    pub fn validate_command_status(self, command_status: u32) -> (r: Result<PduBody, PduParseError>)
        ensures
            match r {
                Ok(v) => spec_validate_status(self@, command_status) is Ok && v == self,
                Err(e) => spec_validate_status(self@, command_status) matches Err(e2) && e@ == e2,
            },
    {
        let request = match &self {
            PduBody::BindReceiver(_) => true,
            PduBody::BindTransmitter(_) => true,
            PduBody::BindTransceiver(_) => true,
            PduBody::SubmitSm(_) => true,
            PduBody::DeliverSm(_) => true,
            PduBody::EnquireLink(_) => true,
            _ => false,
        };
        if request {
            if command_status == 0 {
                Ok(self)
            } else {
                Err(
                    PduParseError::new(
                        PduParseErrorBody::StatusIsNotZero(command_status),
                    ).into_with_field_name("command_status"),
                )
            }
        } else {
            let populated = match &self {
                PduBody::BindReceiverResp(p) => p.data.value.is_some(),
                PduBody::BindTransmitterResp(p) => p.data.value.is_some(),
                PduBody::BindTransceiverResp(p) => p.data.value.is_some(),
                PduBody::SubmitSmResp(p) => p.data.value.is_some(),
                PduBody::DeliverSmResp(p) => p.data.value.is_some(),
                _ => false,
            };
            if populated && command_status != 0 {
                Err(
                    PduParseError::new(
                        PduParseErrorBody::BodyNotAllowedWhenStatusIsNotZero(command_status),
                    ).into_with_field_name("command_status"),
                )
            } else if !populated && command_status == 0 {
                let missing_field = match &self {
                    PduBody::BindReceiverResp(_) => Some("system_id"),
                    PduBody::BindTransmitterResp(_) => Some("system_id"),
                    PduBody::BindTransceiverResp(_) => Some("system_id"),
                    PduBody::SubmitSmResp(_) => Some("message_id"),
                    PduBody::DeliverSmResp(_) => Some("message_id"),
                    _ => None,
                };
                match missing_field {
                    Some(field_name) => Err(
                        PduParseError::new(
                            PduParseErrorBody::COctetStringDoesNotEndWithNul,
                        ).into_with_field_name(field_name),
                    ),
                    None => Ok(self),
                }
            } else {
                Ok(self)
            }
        }
    }
}

/// The mathematical value of a PDU.
pub struct PduV {
    pub command_status: u32,
    pub sequence_number: u32,
    pub body: PduBodyV,
}

impl PduV {
    /// A PDU fit for the wire: a well-formed body that agrees with its
    /// status, and, for a response, a body populated exactly when the
    /// status reports success.
    pub open spec fn wf(self) -> bool {
        &&& self.body.wf()
        &&& spec_validate_status(self.body, self.command_status) is Ok
        &&& self.body.is_valued_resp() ==> ((self.body.resp_value() is Some) <==> (
        self.command_status == 0))
    }

    /// The full wire image: the derived `command_length`, the header,
    /// then the body.
    pub open spec fn wire(self) -> Seq<u8> {
        spec_u32_bytes((16 + self.body.wire().len()) as u32) + spec_u32_bytes(self.body.cid())
            + spec_u32_bytes(self.command_status) + spec_u32_bytes(self.sequence_number)
            + self.body.wire()
    }
}

/// A parsed or constructed PDU.
#[derive(Debug, PartialEq, Clone)]
pub struct Pdu {
    pub command_status: Integer4,
    pub sequence_number: Integer4,
    pub body: PduBody,
}

impl View for Pdu {
    type V = PduV;

    open spec fn view(&self) -> PduV {
        PduV {
            command_status: self.command_status.value,
            sequence_number: self.sequence_number.value,
            body: self.body@,
        }
    }
}

/// Read one header integer: when it cannot be read whole, report the
/// length-bound break if there is one, else the truncation, under the
/// field's name.
pub open spec fn spec_hfld(b: Seq<u8>, pos: int, end: int, n: u32, field: Seq<char>) -> Result<
    (u32, int),
    ErrV,
> {
    if pos + 4 <= end {
        Ok((spec_be32(b[pos], b[pos + 1], b[pos + 2], b[pos + 3]), pos + 4))
    } else {
        match spec_validate_command_length(n) {
            Err(CommandLengthError::TooLong(l)) => Err(ErrV::plain(ErrBodyV::LengthTooLong(l))),
            Err(CommandLengthError::TooShort(l)) => Err(ErrV::plain(ErrBodyV::LengthTooShort(l))),
            Ok(_) => Err(ErrV::plain(ErrBodyV::NotEnoughBytes).with_field(field)),
        }
    }
}

/// Read one header integer, as `spec_hfld` describes.
fn hfld(bytes: &[u8], pos: usize, end: usize, command_length: &Integer4, field_name: &str) -> (r:
    Result<(Integer4, usize), PduParseError>)
    requires
        pos <= end <= bytes@.len(),
    ensures
        ({
            let sr = spec_hfld(bytes@, pos as int, end as int, command_length.value, field_name@);
            match r {
                Ok((v, n)) => sr matches Ok((w, n2)) && v.value == w && n == n2 && n <= end,
                Err(e) => sr matches Err(e2) && e@ == e2,
            }
        }),
{
    match Integer4::read(bytes, pos, end) {
        Ok(v) => Ok(v),
        Err(_) => match validate_command_length(command_length) {
            Err(CommandLengthError::TooLong(l)) => Err(PduParseError::for_lengthtoolong(l)),
            Err(CommandLengthError::TooShort(l)) => Err(PduParseError::for_lengthtooshort(l)),
            Ok(_) => Err(
                PduParseError::new(PduParseErrorBody::NotEnoughBytes).into_with_field_name(
                    field_name,
                ),
            ),
        },
    }
}

/// Parse a body whose command id and status are known, from `[pos,
/// end)`.
pub open spec fn spec_parse_body(b: Seq<u8>, pos: int, end: int, cid: u32, status: u32) -> Result<
    (PduBodyV, int),
    ErrV,
> {
    if cid == 0x00000001 {
        match spec_read_bind_data(b, pos, end) {
            Ok((v, n)) => Ok((PduBodyV::BindReceiver(v), n)),
            Err(e) => Err(e),
        }
    } else if cid == 0x80000001 {
        match spec_read_resp_data(
            b,
            pos,
            end,
            status,
            MAX_LENGTH_RESP_SYSTEM_ID as int,
            "system_id"@,
        ) {
            Ok((v, n)) => Ok((PduBodyV::BindReceiverResp(v), n)),
            Err(e) => Err(e),
        }
    } else if cid == 0x00000002 {
        match spec_read_bind_data(b, pos, end) {
            Ok((v, n)) => Ok((PduBodyV::BindTransmitter(v), n)),
            Err(e) => Err(e),
        }
    } else if cid == 0x80000002 {
        match spec_read_resp_data(
            b,
            pos,
            end,
            status,
            MAX_LENGTH_RESP_SYSTEM_ID as int,
            "system_id"@,
        ) {
            Ok((v, n)) => Ok((PduBodyV::BindTransmitterResp(v), n)),
            Err(e) => Err(e),
        }
    } else if cid == 0x00000009 {
        match spec_read_bind_data(b, pos, end) {
            Ok((v, n)) => Ok((PduBodyV::BindTransceiver(v), n)),
            Err(e) => Err(e),
        }
    } else if cid == 0x80000009 {
        match spec_read_resp_data(
            b,
            pos,
            end,
            status,
            MAX_LENGTH_RESP_SYSTEM_ID as int,
            "system_id"@,
        ) {
            Ok((v, n)) => Ok((PduBodyV::BindTransceiverResp(v), n)),
            Err(e) => Err(e),
        }
    } else if cid == 0x00000004 {
        match spec_read_sm_data(b, pos, end) {
            Ok((v, n)) => Ok((PduBodyV::SubmitSm(v), n)),
            Err(e) => Err(e),
        }
    } else if cid == 0x80000004 {
        match spec_read_resp_data(b, pos, end, status, MAX_LENGTH_MESSAGE_ID as int, "message_id"@) {
            Ok((v, n)) => Ok((PduBodyV::SubmitSmResp(v), n)),
            Err(e) => Err(e),
        }
    } else if cid == 0x00000005 {
        match spec_read_sm_data(b, pos, end) {
            Ok((v, n)) => Ok((PduBodyV::DeliverSm(v), n)),
            Err(e) => Err(e),
        }
    } else if cid == 0x80000005 {
        match spec_read_resp_data(b, pos, end, status, MAX_LENGTH_MESSAGE_ID as int, "message_id"@) {
            Ok((v, n)) => Ok((PduBodyV::DeliverSmResp(v), n)),
            Err(e) => Err(e),
        }
    } else if cid == 0x00000015 {
        Ok((PduBodyV::EnquireLink, pos))
    } else if cid == 0x80000015 {
        Ok((PduBodyV::EnquireLinkResp, pos))
    } else if cid == 0x80000000 {
        Ok((PduBodyV::GenericNack, pos))
    } else {
        Err(ErrV::plain(ErrBodyV::UnknownCommandId))
    }
}

/// Parse a body whose command id and status are known.
pub fn parse_body(bytes: &[u8], pos: usize, end: usize, command_id: u32, command_status: u32) -> (r:
    Result<(PduBody, usize), PduParseError>)
    requires
        pos <= end <= bytes@.len(),
    ensures
        ({
            let sr = spec_parse_body(bytes@, pos as int, end as int, command_id, command_status);
            match r {
                Ok((v, n)) => sr matches Ok((w, n2)) && v@ == w && n == n2 && v@.wf() && pos <= n
                    <= end,
                Err(e) => sr matches Err(e2) && e@ == e2,
            }
        }),
{
    if command_id == 0x00000001 {
        let (p, n) = BindReceiverPdu::parse(bytes, pos, end)?;
        Ok((PduBody::BindReceiver(p), n))
    } else if command_id == 0x80000001 {
        let (p, n) = BindReceiverRespPdu::parse(bytes, pos, end, command_status)?;
        Ok((PduBody::BindReceiverResp(p), n))
    } else if command_id == 0x00000002 {
        let (p, n) = BindTransmitterPdu::parse(bytes, pos, end)?;
        Ok((PduBody::BindTransmitter(p), n))
    } else if command_id == 0x80000002 {
        let (p, n) = BindTransmitterRespPdu::parse(bytes, pos, end, command_status)?;
        Ok((PduBody::BindTransmitterResp(p), n))
    } else if command_id == 0x00000009 {
        let (p, n) = BindTransceiverPdu::parse(bytes, pos, end)?;
        Ok((PduBody::BindTransceiver(p), n))
    } else if command_id == 0x80000009 {
        let (p, n) = BindTransceiverRespPdu::parse(bytes, pos, end, command_status)?;
        Ok((PduBody::BindTransceiverResp(p), n))
    } else if command_id == 0x00000004 {
        let (p, n) = SubmitSmPdu::parse(bytes, pos, end)?;
        Ok((PduBody::SubmitSm(p), n))
    } else if command_id == 0x80000004 {
        let (p, n) = SubmitSmRespPdu::parse(bytes, pos, end, command_status)?;
        Ok((PduBody::SubmitSmResp(p), n))
    } else if command_id == 0x00000005 {
        let (p, n) = DeliverSmPdu::parse(bytes, pos, end)?;
        Ok((PduBody::DeliverSm(p), n))
    } else if command_id == 0x80000005 {
        let (p, n) = DeliverSmRespPdu::parse(bytes, pos, end, command_status)?;
        Ok((PduBody::DeliverSmResp(p), n))
    } else if command_id == 0x00000015 {
        Ok((PduBody::EnquireLink(EnquireLinkPdu::new()), pos))
    } else if command_id == 0x80000015 {
        Ok((PduBody::EnquireLinkResp(EnquireLinkRespPdu::new()), pos))
    } else if command_id == 0x80000000 {
        Ok((PduBody::GenericNack(GenericNackPdu::new_error()), pos))
    } else {
        Err(PduParseError::new(PduParseErrorBody::UnknownCommandId))
    }
}

/// Parse one whole PDU from the front of `b`: the declared length
/// restricts every later read; the header is read before the length
/// bounds are enforced, so that errors can carry as much context as
/// the input offers; the body must fill the frame exactly and agree
/// with the status.
pub open spec fn spec_parse_pdu(b: Seq<u8>) -> Result<PduV, ErrV> {
    if b.len() < 4 {
        Err(ErrV::plain(ErrBodyV::NotEnoughBytes))
    } else {
        let n = spec_be32(b[0], b[1], b[2], b[3]);
        let rem: int = if n >= 4 {
            n - 4
        } else {
            0
        };
        let end: int = if 4 + rem <= b.len() {
            4 + rem
        } else {
            b.len() as int
        };
        match spec_hfld(b, 4, end, n, "command_id"@) {
            Err(e) => Err(e),
            Ok((cid, _)) => match spec_hfld(b, 8, end, n, "command_status"@) {
                Err(e) => Err(e.with_header(Some(cid), None, None)),
                Ok((status, _)) => match spec_hfld(b, 12, end, n, "sequence_number"@) {
                    Err(e) => Err(e.with_header(Some(cid), Some(status), None)),
                    Ok((seq, _)) => {
                        let hdr = Some(cid);
                        let hdr2 = Some(status);
                        let hdr3 = Some(seq);
                        match spec_validate_command_length(n) {
                            Err(CommandLengthError::TooLong(l)) => Err(
                                ErrV::plain(ErrBodyV::LengthTooLong(l)).with_header(
                                    hdr,
                                    hdr2,
                                    hdr3,
                                ),
                            ),
                            Err(CommandLengthError::TooShort(l)) => Err(
                                ErrV::plain(ErrBodyV::LengthTooShort(l)).with_header(
                                    hdr,
                                    hdr2,
                                    hdr3,
                                ),
                            ),
                            Ok(_) => match spec_parse_body(b, 16, end, cid, status) {
                                Err(e) => Err(e.with_header(hdr, hdr2, hdr3)),
                                Ok((bv, bodyend)) => if bodyend != end {
                                    Err(
                                        ErrV::plain(ErrBodyV::LengthLongerThanPdu(n)).with_header(
                                            hdr,
                                            hdr2,
                                            hdr3,
                                        ),
                                    )
                                } else {
                                    match spec_validate_status(bv, status) {
                                        Err(e) => Err(e.with_header(hdr, hdr2, hdr3)),
                                        Ok(_) => Ok(
                                            PduV {
                                                command_status: status,
                                                sequence_number: seq,
                                                body: bv,
                                            },
                                        ),
                                    }
                                },
                            },
                        }
                    },
                },
            },
        }
    }
}

impl Pdu {
    /// Join a status, a sequence number and a body into a PDU,
    /// refusing a combination the wire format forbids.
    pub fn new(command_status: u32, sequence_number: u32, body: PduBody) -> (r: Result<
        Pdu,
        PduParseError,
    >)
        ensures
            match r {
                Ok(v) => spec_validate_status(body@, command_status) is Ok && v@ == (PduV {
                    command_status,
                    sequence_number,
                    body: body@,
                }) && (body@.wf() ==> v@.wf()),
                Err(e) => spec_validate_status(body@, command_status) matches Err(e2) && e@ == e2,
            },
    {
        let body = body.validate_command_status(command_status)?;
        Ok(
            Pdu {
                command_status: Integer4::new(command_status),
                sequence_number: Integer4::new(sequence_number),
                body,
            },
        )
    }

    /// Parse one whole PDU from the front of `bytes`.
    pub fn parse(bytes: &[u8]) -> (r: Result<Pdu, PduParseError>)
        ensures
            match r {
                Ok(v) => spec_parse_pdu(bytes@) matches Ok(w) && v@ == w && v@.wf(),
                Err(e) => spec_parse_pdu(bytes@) matches Err(e2) && e@ == e2,
            },
    {
        let blen = bytes.len();
        let (command_length, _) = Integer4::read(bytes, 0, blen)?;
        let n = command_length.value;
        let rem: u64 = if n >= 4 {
            (n - 4) as u64
        } else {
            0
        };
        let end: usize = if 4 + rem <= blen as u64 {
            (4 + rem) as usize
        } else {
            blen
        };
        let (command_id, _) = hfld(bytes, 4, end, &command_length, "command_id")?;
        let (command_status, _) = match hfld(bytes, 8, end, &command_length, "command_status") {
            Ok(v) => v,
            Err(e) => {
                return Err(e.into_with_header(Some(command_id.value), None, None));
            },
        };
        let (sequence_number, _) = match hfld(bytes, 12, end, &command_length, "sequence_number") {
            Ok(v) => v,
            Err(e) => {
                return Err(
                    e.into_with_header(Some(command_id.value), Some(command_status.value), None),
                );
            },
        };
        let cid = command_id.value;
        let status = command_status.value;
        let seq = sequence_number.value;
        match validate_command_length(&command_length) {
            Err(CommandLengthError::TooLong(l)) => {
                return Err(
                    PduParseError::for_lengthtoolong(l).into_with_header(
                        Some(cid),
                        Some(status),
                        Some(seq),
                    ),
                );
            },
            Err(CommandLengthError::TooShort(l)) => {
                return Err(
                    PduParseError::for_lengthtooshort(l).into_with_header(
                        Some(cid),
                        Some(status),
                        Some(seq),
                    ),
                );
            },
            Ok(_) => {
            },
        }
        let (body, bodyend) = match parse_body(bytes, 16, end, cid, status) {
            Ok(v) => v,
            Err(e) => {
                return Err(e.into_with_header(Some(cid), Some(status), Some(seq)));
            },
        };
        if bodyend != end {
            return Err(
                PduParseError::new(PduParseErrorBody::LengthLongerThanPdu(n)).into_with_header(
                    Some(cid),
                    Some(status),
                    Some(seq),
                ),
            );
        }
        let body = match body.validate_command_status(status) {
            Ok(v) => v,
            Err(e) => {
                return Err(e.into_with_header(Some(cid), Some(status), Some(seq)));
            },
        };
        Ok(
            Pdu {
                command_status: Integer4::new(status),
                sequence_number: Integer4::new(seq),
                body,
            },
        )
    }

    /// Test whether `bytes` holds a complete PDU.
    pub fn check(bytes: &[u8]) -> (r: Result<CheckOutcome, CheckError>)
        ensures
            r == spec_check(bytes@),
    {
        crate::check::check(bytes)
    }

    /// Append this PDU's whole wire image: the derived
    /// `command_length`, the header, then the body.
    pub fn write(&self, buf: &mut Vec<u8>)
        requires
            self@.body.wf(),
        ensures
            final(buf)@ == old(buf)@ + self@.wire(),
    {
        proof {
            lemma_body_wire_len(self@.body);
        }
        let mut rest: Vec<u8> = Vec::new();
        self.command_id().write(&mut rest);
        self.command_status.write(&mut rest);
        self.sequence_number.write(&mut rest);
        match &self.body {
            PduBody::BindReceiver(p) => p.write(&mut rest),
            PduBody::BindReceiverResp(p) => p.write(&mut rest),
            PduBody::BindTransmitter(p) => p.write(&mut rest),
            PduBody::BindTransmitterResp(p) => p.write(&mut rest),
            PduBody::BindTransceiver(p) => p.write(&mut rest),
            PduBody::BindTransceiverResp(p) => p.write(&mut rest),
            PduBody::SubmitSm(p) => p.write(&mut rest),
            PduBody::SubmitSmResp(p) => p.write(&mut rest),
            PduBody::DeliverSm(p) => p.write(&mut rest),
            PduBody::DeliverSmResp(p) => p.write(&mut rest),
            PduBody::EnquireLink(p) => p.write(&mut rest),
            PduBody::EnquireLinkResp(p) => p.write(&mut rest),
            PduBody::GenericNack(p) => p.write(&mut rest),
        }
        let command_length = Integer4::new((rest.len() + 4) as u32);
        command_length.write(buf);
        buf.extend_from_slice(rest.as_slice());
        assert(buf@ =~= old(buf)@ + self@.wire());
    }

    /// The command id implied by the body.
    pub fn command_id(&self) -> (r: Integer4)
        ensures
            r.value == self@.body.cid(),
    {
        Integer4::new(
            match &self.body {
                PduBody::BindReceiver(_) => 0x00000001,
                PduBody::BindReceiverResp(_) => 0x80000001,
                PduBody::BindTransmitter(_) => 0x00000002,
                PduBody::BindTransmitterResp(_) => 0x80000002,
                PduBody::BindTransceiver(_) => 0x00000009,
                PduBody::BindTransceiverResp(_) => 0x80000009,
                PduBody::SubmitSm(_) => 0x00000004,
                PduBody::SubmitSmResp(_) => 0x80000004,
                PduBody::DeliverSm(_) => 0x00000005,
                PduBody::DeliverSmResp(_) => 0x80000005,
                PduBody::EnquireLink(_) => 0x00000015,
                PduBody::EnquireLinkResp(_) => 0x80000015,
                PduBody::GenericNack(_) => 0x80000000,
            },
        )
    }

    /// The operation this PDU carries.
    pub fn body(&self) -> (r: &PduBody)
        ensures
            r@ == self@.body,
    {
        &self.body
    }
}

/// A well-formed body's wire image is far below the global length
/// bound.
pub proof fn lemma_body_wire_len(bv: PduBodyV)
    requires
        bv.wf(),
    ensures
        bv.wire().len() <= 400,
{
}

} // verus!
