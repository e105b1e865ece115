//! The per-connection session engine, as pure decision logic: what to
//! do with each arriving PDU, and which response to write for each
//! outcome.  The surrounding I/O loop performs the reads, the writes
//! and the calls into the host's logic, and hands their results back
//! here.

use vstd::prelude::*;
use vstd::string::StringSliceAdditionalSpecFns;

use crate::formats::{spec_co_from_str, Integer4};
use crate::operations::{
    BindReceiverRespPdu, BindTransceiverRespPdu, BindTransmitterRespPdu, EnquireLinkRespPdu,
    GenericNackPdu, SubmitSmRespPdu,
};
use crate::pdu::{Pdu, PduBody, PduBodyV, PduV};
use crate::pduparseerror::{spec_error_status, ErrV, PduParseError};
use crate::resp_data::{RespData, MAX_LENGTH_RESP_SYSTEM_ID};
use crate::smsc_logic::{spec_bind_error_status, spec_submit_sm_error_status, BindError,
    SubmitSmError};
use crate::status::{ESME_RINVCMDID, ESME_ROK};

verus! {

/// The role a connection holds: nothing until a bind succeeds, then
/// whatever the bind requested.
#[derive(Debug, PartialEq, Eq, Structural, Clone, Copy)]
pub enum SessionRole {
    Unbound,
    Transmitter,
    Receiver,
    Transceiver,
}

/// Which bind operation arrived.
#[derive(Debug, PartialEq, Eq, Structural, Clone, Copy)]
pub enum BindKind {
    Transmitter,
    Receiver,
    Transceiver,
}

impl BindKind {
    /// The role a successful bind of this kind establishes.
    pub open spec fn role(self) -> SessionRole {
        match self {
            BindKind::Transmitter => SessionRole::Transmitter,
            BindKind::Receiver => SessionRole::Receiver,
            BindKind::Transceiver => SessionRole::Transceiver,
        }
    }
}

/// What the session must do with an arriving PDU.
#[derive(Debug, PartialEq, Eq, Structural, Clone, Copy)]
pub enum Dispatch {
    /// Hand the bind data to the logic's `bind` callback.
    CallBind(BindKind),
    /// Hand the body to the logic's `submit_sm` callback.
    CallSubmitSm,
    /// Answer with `enquire_link_resp` carrying the same sequence number.
    RespondEnquireLink,
    /// An acknowledgement of an earlier delivery: nothing to send.
    AcknowledgeDeliverSmResp,
    /// No handler fits: nack with the invalid-command-id status and
    /// close the connection.
    Unexpected,
}

/// The dispatch rules: from `Unbound` only a bind is legal; a
/// submission needs a transmitting role; a delivery acknowledgement
/// needs a receiving role; `enquire_link` is legal in any state.
pub open spec fn spec_dispatch(body: PduBodyV, role: SessionRole) -> Dispatch {
    match body {
        PduBodyV::BindTransmitter(_) => if role is Unbound {
            Dispatch::CallBind(BindKind::Transmitter)
        } else {
            Dispatch::Unexpected
        },
        PduBodyV::BindReceiver(_) => if role is Unbound {
            Dispatch::CallBind(BindKind::Receiver)
        } else {
            Dispatch::Unexpected
        },
        PduBodyV::BindTransceiver(_) => if role is Unbound {
            Dispatch::CallBind(BindKind::Transceiver)
        } else {
            Dispatch::Unexpected
        },
        PduBodyV::SubmitSm(_) => if role is Transmitter || role is Transceiver {
            Dispatch::CallSubmitSm
        } else {
            Dispatch::Unexpected
        },
        PduBodyV::DeliverSmResp(_) => if role is Receiver || role is Transceiver {
            Dispatch::AcknowledgeDeliverSmResp
        } else {
            Dispatch::Unexpected
        },
        PduBodyV::EnquireLink => Dispatch::RespondEnquireLink,
        _ => Dispatch::Unexpected,
    }
}

/// Decide what to do with an arriving PDU under the current role.
pub fn dispatch_pdu(pdu: &Pdu, role: SessionRole) -> (r: Dispatch)
    ensures
        r == spec_dispatch(pdu@.body, role),
{
    match pdu.body() {
        PduBody::BindTransmitter(_) => if role == SessionRole::Unbound {
            Dispatch::CallBind(BindKind::Transmitter)
        } else {
            Dispatch::Unexpected
        },
        PduBody::BindReceiver(_) => if role == SessionRole::Unbound {
            Dispatch::CallBind(BindKind::Receiver)
        } else {
            Dispatch::Unexpected
        },
        PduBody::BindTransceiver(_) => if role == SessionRole::Unbound {
            Dispatch::CallBind(BindKind::Transceiver)
        } else {
            Dispatch::Unexpected
        },
        PduBody::SubmitSm(_) => if role == SessionRole::Transmitter || role
            == SessionRole::Transceiver {
            Dispatch::CallSubmitSm
        } else {
            Dispatch::Unexpected
        },
        PduBody::DeliverSmResp(_) => if role == SessionRole::Receiver || role
            == SessionRole::Transceiver {
            Dispatch::AcknowledgeDeliverSmResp
        } else {
            Dispatch::Unexpected
        },
        PduBody::EnquireLink(_) => Dispatch::RespondEnquireLink,
        _ => Dispatch::Unexpected,
    }
}

/// The response a finished bind sends: on success, the matching resp
/// carrying the server's `system_id` with a zero status, and the new
/// role; on refusal, a header-only resp with the refusal's status, and
/// the role unchanged at `Unbound`.
pub open spec fn spec_bind_response(
    kind: BindKind,
    outcome: Result<(), BindError>,
    system_id: Seq<u8>,
    sequence_number: u32,
) -> (PduV, SessionRole) {
    let (status, value, role) = match outcome {
        Ok(_) => (ESME_ROK, Some(system_id), kind.role()),
        Err(e) => (spec_bind_error_status(e), None::<Seq<u8>>, SessionRole::Unbound),
    };
    let body = match kind {
        BindKind::Transmitter => PduBodyV::BindTransmitterResp(value),
        BindKind::Receiver => PduBodyV::BindReceiverResp(value),
        BindKind::Transceiver => PduBodyV::BindTransceiverResp(value),
    };
    (PduV { command_status: status, sequence_number, body }, role)
}

/// Build the response to a bind whose outcome the logic has decided.
/// Fails only when the configured `system_id` itself cannot stand in a
/// response body.
pub fn handle_bind_outcome(
    kind: BindKind,
    outcome: &Result<(), BindError>,
    system_id: &str,
    sequence_number: u32,
) -> (r: Result<(Pdu, SessionRole), PduParseError>)
    ensures
        match r {
            Ok((pdu, role)) => (pdu@, role) == spec_bind_response(
                kind,
                *outcome,
                system_id.spec_bytes(),
                sequence_number,
            ) && (outcome matches Ok(_) ==> spec_co_from_str(
                system_id.spec_bytes(),
                MAX_LENGTH_RESP_SYSTEM_ID as int,
                "system_id"@,
            ) is Ok),
            Err(e) => outcome matches Ok(_) && spec_co_from_str(
                system_id.spec_bytes(),
                MAX_LENGTH_RESP_SYSTEM_ID as int,
                "system_id"@,
            ) matches Err(e2) && e@ == e2,
        },
{
    let (status, data, role) = match outcome {
        Ok(_) => {
            let data = RespData::new(system_id, MAX_LENGTH_RESP_SYSTEM_ID, "system_id")?;
            (ESME_ROK, data, match kind {
                BindKind::Transmitter => SessionRole::Transmitter,
                BindKind::Receiver => SessionRole::Receiver,
                BindKind::Transceiver => SessionRole::Transceiver,
            })
        },
        Err(e) => {
            (crate::smsc_logic::bind_error_status(e), RespData::new_error(), SessionRole::Unbound)
        },
    };
    let body = match kind {
        BindKind::Transmitter => PduBody::BindTransmitterResp(BindTransmitterRespPdu { data }),
        BindKind::Receiver => PduBody::BindReceiverResp(BindReceiverRespPdu { data }),
        BindKind::Transceiver => PduBody::BindTransceiverResp(BindTransceiverRespPdu { data }),
    };
    Ok(
        (
            Pdu {
                command_status: Integer4::new(status),
                sequence_number: Integer4::new(sequence_number),
                body,
            },
            role,
        ),
    )
}

/// The response a finished submission sends: on success the logic's
/// own resp body under a zero status, on refusal a header-only resp
/// under the refusal's status.
pub open spec fn spec_submit_response(
    outcome: Result<Option<Seq<u8>>, SubmitSmError>,
    sequence_number: u32,
) -> PduV {
    let (status, value) = match outcome {
        Ok(v) => (ESME_ROK, v),
        Err(e) => (spec_submit_sm_error_status(e), None::<Seq<u8>>),
    };
    PduV { command_status: status, sequence_number, body: PduBodyV::SubmitSmResp(value) }
}

/// Build the response to a submission whose outcome the logic has
/// decided.
pub fn handle_submit_sm_outcome(
    outcome: Result<SubmitSmRespPdu, SubmitSmError>,
    sequence_number: u32,
) -> (r: Pdu)
    ensures
        r@ == spec_submit_response(
            match outcome {
                Ok(p) => Ok(p@),
                Err(e) => Err(e),
            },
            sequence_number,
        ),
{
    let (status, resp) = match outcome {
        Ok(p) => (ESME_ROK, p),
        Err(e) => (crate::smsc_logic::submit_sm_error_status(&e), SubmitSmRespPdu::new_error()),
    };
    Pdu {
        command_status: Integer4::new(status),
        sequence_number: Integer4::new(sequence_number),
        body: PduBody::SubmitSmResp(resp),
    }
}

/// Answer an `enquire_link`: the resp echoes the sequence number under
/// a zero status.
pub fn handle_enquire_link(sequence_number: u32) -> (r: Pdu)
    ensures
        r@ == (PduV {
            command_status: ESME_ROK,
            sequence_number,
            body: PduBodyV::EnquireLinkResp,
        }),
{
    Pdu {
        command_status: Integer4::new(ESME_ROK),
        sequence_number: Integer4::new(sequence_number),
        body: PduBody::EnquireLinkResp(EnquireLinkRespPdu::new()),
    }
}

/// Answer a PDU no handler fits: a `generic_nack` under the
/// invalid-command-id status, echoing the sequence number.
pub fn handle_unexpected_pdu(sequence_number: u32) -> (r: Pdu)
    ensures
        r@ == (PduV {
            command_status: ESME_RINVCMDID,
            sequence_number,
            body: PduBodyV::GenericNack,
        }),
{
    Pdu {
        command_status: Integer4::new(ESME_RINVCMDID),
        sequence_number: Integer4::new(sequence_number),
        body: PduBody::GenericNack(GenericNackPdu::new_error()),
    }
}

/// The best-effort response to a parse error: under the error's
/// mapped status, the resp matching the command id when that id is
/// known and has a defined response, else a `generic_nack`; the
/// sequence number is echoed when it was learned, else 1.
pub open spec fn spec_parse_error_response(e: ErrV) -> PduV {
    let status = spec_error_status(e.body);
    let seq = match e.sequence_number {
        Some(s) => s,
        None => 1,
    };
    let body = match e.command_id {
        Some(0x00000001u32) => PduBodyV::BindReceiverResp(None),
        Some(0x00000002u32) => PduBodyV::BindTransmitterResp(None),
        Some(0x00000009u32) => PduBodyV::BindTransceiverResp(None),
        Some(0x00000004u32) => PduBodyV::SubmitSmResp(None),
        _ => PduBodyV::GenericNack,
    };
    PduV { command_status: status, sequence_number: seq, body }
}

/// Build the best-effort response to a parse error, after which the
/// connection is dropped.
pub fn handle_pdu_parse_error(error: &PduParseError) -> (r: Pdu)
    ensures
        r@ == spec_parse_error_response(error@),
{
    let status = error.status();
    let sequence_number: u32 = match &error.sequence_number {
        Some(s) => *s,
        None => 1,
    };
    let body = match &error.command_id {
        Some(cid) => {
            if *cid == 0x00000001 {
                PduBody::BindReceiverResp(BindReceiverRespPdu::new_error())
            } else if *cid == 0x00000002 {
                PduBody::BindTransmitterResp(BindTransmitterRespPdu::new_error())
            } else if *cid == 0x00000009 {
                PduBody::BindTransceiverResp(BindTransceiverRespPdu::new_error())
            } else if *cid == 0x00000004 {
                PduBody::SubmitSmResp(SubmitSmRespPdu::new_error())
            } else {
                PduBody::GenericNack(GenericNackPdu::new_error())
            }
        },
        None => PduBody::GenericNack(GenericNackPdu::new_error()),
    };
    Pdu {
        command_status: Integer4::new(status),
        sequence_number: Integer4::new(sequence_number),
        body,
    }
}

} // verus!
