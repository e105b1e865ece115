//! The universal properties of the codec, each proved once and for
//! all inputs.

use vstd::prelude::*;

use crate::bind_data::lemma_bind_data_roundtrip;
use crate::formats::{lemma_be32_roundtrip, spec_be32, spec_u32_bytes};
use crate::check::{spec_check, CheckError, CheckOutcome};
use crate::pdu::{
    lemma_body_wire_len, spec_parse_body, spec_parse_pdu, spec_validate_status, PduBodyV, PduV,
};
use crate::pduparseerror::ErrV;
use crate::resp_data::{
    lemma_resp_data_roundtrip, MAX_LENGTH_MESSAGE_ID, MAX_LENGTH_RESP_SYSTEM_ID,
};
use crate::sm_data::lemma_sm_data_roundtrip;

verus! {

/// Header framing round-trip: parsing the wire image of any
/// well-formed PDU yields that PDU back, and the emitted
/// `command_length` is the image's total byte length.
#[verifier::rlimit(100)]
pub proof fn lemma_pdu_roundtrip(v: PduV)
    requires
        v.wf(),
    ensures
        spec_parse_pdu(v.wire()) == Ok::<PduV, ErrV>(v),
        spec_be32(v.wire()[0], v.wire()[1], v.wire()[2], v.wire()[3]) == v.wire().len(),
{
    let b = v.wire();
    let bw = v.body.wire();
    lemma_body_wire_len(v.body);
    let n: u32 = (16 + bw.len()) as u32;
    let c1 = spec_u32_bytes(n);
    let c2 = spec_u32_bytes(v.body.cid());
    let c3 = spec_u32_bytes(v.command_status);
    let c4 = spec_u32_bytes(v.sequence_number);
    assert(b == c1 + c2 + c3 + c4 + bw);
    assert(b.len() == 16 + bw.len());
    assert forall|k: int| 0 <= k < 4 implies b[k] == c1[k] by {
        assert((c1 + c2)[k] == c1[k]);
        assert((c1 + c2 + c3)[k] == (c1 + c2)[k]);
        assert((c1 + c2 + c3 + c4)[k] == (c1 + c2 + c3)[k]);
        assert(b[k] == (c1 + c2 + c3 + c4)[k]);
    }
    assert forall|k: int| 0 <= k < 4 implies b[4 + k] == c2[k] by {
        let i = 4 + k;
        assert((c1 + c2)[i] == c2[k]);
        assert((c1 + c2 + c3)[i] == (c1 + c2)[i]);
        assert((c1 + c2 + c3 + c4)[i] == (c1 + c2 + c3)[i]);
        assert(b[i] == (c1 + c2 + c3 + c4)[i]);
    }
    assert forall|k: int| 0 <= k < 4 implies b[8 + k] == c3[k] by {
        let i = 8 + k;
        assert((c1 + c2 + c3)[i] == c3[k]);
        assert((c1 + c2 + c3 + c4)[i] == (c1 + c2 + c3)[i]);
        assert(b[i] == (c1 + c2 + c3 + c4)[i]);
    }
    assert forall|k: int| 0 <= k < 4 implies b[12 + k] == c4[k] by {
        let i = 12 + k;
        assert((c1 + c2 + c3 + c4)[i] == c4[k]);
        assert(b[i] == (c1 + c2 + c3 + c4)[i]);
    }
    assert forall|k: int| 0 <= k < bw.len() implies b[16 + k] == bw[k] by {
        assert(b[16 + k] == bw[k]);
    }
    lemma_be32_roundtrip(n);
    assert(spec_be32(b[0], b[1], b[2], b[3]) == n);
    lemma_be32_roundtrip(v.body.cid());
    assert(spec_be32(b[4], b[5], b[6], b[7]) == v.body.cid());
    lemma_be32_roundtrip(v.command_status);
    assert(spec_be32(b[8], b[9], b[10], b[11]) == v.command_status);
    lemma_be32_roundtrip(v.sequence_number);
    assert(spec_be32(b[12], b[13], b[14], b[15]) == v.sequence_number);
    let end: int = n as int;
    assert(b.subrange(16, end) =~= bw);
    let cid = v.body.cid();
    let status = v.command_status;
    match v.body {
        PduBodyV::BindReceiver(bd) => {
            lemma_bind_data_roundtrip(b, 16, end, bd);
        },
        PduBodyV::BindTransmitter(bd) => {
            lemma_bind_data_roundtrip(b, 16, end, bd);
        },
        PduBodyV::BindTransceiver(bd) => {
            lemma_bind_data_roundtrip(b, 16, end, bd);
        },
        PduBodyV::BindReceiverResp(rv) => {
            lemma_resp_data_roundtrip(
                b,
                16,
                end,
                status,
                MAX_LENGTH_RESP_SYSTEM_ID as int,
                "system_id"@,
                rv,
            );
        },
        PduBodyV::BindTransmitterResp(rv) => {
            lemma_resp_data_roundtrip(
                b,
                16,
                end,
                status,
                MAX_LENGTH_RESP_SYSTEM_ID as int,
                "system_id"@,
                rv,
            );
        },
        PduBodyV::BindTransceiverResp(rv) => {
            lemma_resp_data_roundtrip(
                b,
                16,
                end,
                status,
                MAX_LENGTH_RESP_SYSTEM_ID as int,
                "system_id"@,
                rv,
            );
        },
        PduBodyV::SubmitSm(sv) => {
            lemma_sm_data_roundtrip(b, 16, end, sv);
        },
        PduBodyV::DeliverSm(sv) => {
            lemma_sm_data_roundtrip(b, 16, end, sv);
        },
        PduBodyV::SubmitSmResp(rv) => {
            lemma_resp_data_roundtrip(
                b,
                16,
                end,
                status,
                MAX_LENGTH_MESSAGE_ID as int,
                "message_id"@,
                rv,
            );
        },
        PduBodyV::DeliverSmResp(rv) => {
            lemma_resp_data_roundtrip(
                b,
                16,
                end,
                status,
                MAX_LENGTH_MESSAGE_ID as int,
                "message_id"@,
                rv,
            );
        },
        PduBodyV::EnquireLink => {
        },
        PduBodyV::EnquireLinkResp => {
        },
        PduBodyV::GenericNack => {
        },
    }
    assert(spec_parse_body(b, 16, end, cid, status) == Ok::<(PduBodyV, int), ErrV>(
        (v.body, end),
    ));
}

/// A body read touches only its window: parsing from two buffers that
/// agree on `[pos, end)` yields the same outcome.
proof fn lemma_parse_body_congruent(
    b1: Seq<u8>,
    b2: Seq<u8>,
    pos: int,
    end: int,
    cid: u32,
    status: u32,
)
    requires
        0 <= pos <= end,
        end <= b1.len(),
        end <= b2.len(),
        forall|i: int| pos <= i < end ==> b1[i] == b2[i],
    ensures
        spec_parse_body(b1, pos, end, cid, status) == spec_parse_body(b2, pos, end, cid, status),
{
    crate::bind_data::lemma_read_bind_data_congruent(b1, b2, pos, end);
    crate::sm_data::lemma_read_sm_data_congruent(b1, b2, pos, end);
    crate::resp_data::lemma_read_resp_data_congruent(
        b1,
        b2,
        pos,
        end,
        status,
        MAX_LENGTH_RESP_SYSTEM_ID as int,
        "system_id"@,
    );
    crate::resp_data::lemma_read_resp_data_congruent(
        b1,
        b2,
        pos,
        end,
        status,
        MAX_LENGTH_MESSAGE_ID as int,
        "message_id"@,
    );
}

/// Length discipline: when the first four bytes declare a length `n`
/// no longer than what is buffered, parsing reads nothing past byte
/// `n`: the outcome over the whole buffer is the outcome over its
/// first `n` bytes alone, on success and on failure alike.
pub proof fn lemma_length_discipline(b: Seq<u8>)
    requires
        b.len() >= 4,
        4 <= spec_be32(b[0], b[1], b[2], b[3]) <= b.len(),
    ensures
        spec_parse_pdu(b) == spec_parse_pdu(
            b.take(spec_be32(b[0], b[1], b[2], b[3]) as int),
        ),
{
    let n = spec_be32(b[0], b[1], b[2], b[3]);
    let bt = b.take(n as int);
    assert(bt.len() == n);
    assert(bt[0] == b[0] && bt[1] == b[1] && bt[2] == b[2] && bt[3] == b[3]);
    assert(spec_be32(bt[0], bt[1], bt[2], bt[3]) == n);
    let end: int = n as int;
    assert forall|i: int| 0 <= i < end implies b[i] == bt[i] by {
    }
    if n >= 16 {
        lemma_parse_body_congruent(
            b,
            bt,
            16,
            end,
            spec_be32(b[4], b[5], b[6], b[7]),
            spec_be32(b[8], b[9], b[10], b[11]),
        );
    }
}

/// Check/parse agreement: once the frame checker reports `Ready`,
/// parsing is settled by what is already buffered; later input cannot
/// change the outcome, so a parse attempt never has to wait for more
/// bytes.
pub proof fn lemma_check_parse_agreement(b: Seq<u8>, rest: Seq<u8>)
    requires
        spec_check(b) == Ok::<CheckOutcome, CheckError>(CheckOutcome::Ready),
    ensures
        spec_parse_pdu(b + rest) == spec_parse_pdu(b),
{
    let n = spec_be32(b[0], b[1], b[2], b[3]);
    let b2 = b + rest;
    assert(b2[0] == b[0] && b2[1] == b[1] && b2[2] == b[2] && b2[3] == b[3]);
    lemma_length_discipline(b);
    lemma_length_discipline(b2);
    assert(b.take(n as int) =~= b2.take(n as int));
}

/// Response body gating: whatever bytes arrive, a successfully parsed
/// response carries a populated body exactly when its status reports
/// success.
pub proof fn lemma_response_body_gating(b: Seq<u8>, v: PduV)
    requires
        spec_parse_pdu(b) == Ok::<PduV, ErrV>(v),
        v.body.is_valued_resp(),
    ensures
        (v.body.resp_value() is Some) <==> (v.command_status == 0),
{
}

} // verus!
