//! The bodies of response PDUs that carry one C-octet string on
//! success and nothing on failure: the three `bind_*_resp` operations
//! (a `system_id`) and `submit_sm_resp` / `deliver_sm_resp`
//! (a `message_id`).  A populated body travels exactly when
//! `command_status` is zero.

use vstd::prelude::*;
use vstd::string::StringSliceAdditionalSpecFns;

use crate::formats::{
    coctet_wire, lemma_read_coctet_wire, spec_co_from_str, spec_read_co_field, COctetString,
};
use crate::pduparseerror::{fld, ErrBodyV, ErrV, PduParseError, PduParseErrorBody};

verus! {

pub const MAX_LENGTH_RESP_SYSTEM_ID: usize = 16;

pub const MAX_LENGTH_MESSAGE_ID: usize = 65;

/// A response body: one string when the response reports success,
/// nothing when it reports an error.
#[derive(Debug, PartialEq, Clone)]
pub struct RespData {
    pub value: Option<COctetString>,
}

impl View for RespData {
    type V = Option<Seq<u8>>;

    open spec fn view(&self) -> Option<Seq<u8>> {
        match self.value {
            Some(ref v) => Some(v@),
            None => None,
        }
    }
}

/// The bytes a response body occupies on the wire: its string and NUL,
/// or nothing at all.
pub open spec fn resp_wire(v: Option<Seq<u8>>) -> Seq<u8> {
    match v {
        Some(s) => coctet_wire(s),
        None => Seq::empty(),
    }
}

/// A response body's string, when present, holds acceptable bytes and
/// fits the field's maximum length.
pub open spec fn resp_wf(v: Option<Seq<u8>>, max: int) -> bool {
    match v {
        Some(s) => crate::formats::coctet_bytes_ok(s) && s.len() + 1 <= max,
        None => true,
    }
}

/// Parse a response body from `[pos, end)`: with a zero status the
/// string must follow; with a non-zero status nothing may.
pub open spec fn spec_read_resp_data(
    b: Seq<u8>,
    pos: int,
    end: int,
    status: u32,
    max: int,
    field: Seq<char>,
) -> Result<(Option<Seq<u8>>, int), ErrV> {
    if status == 0 {
        match spec_read_co_field(b, pos, end, max, field) {
            Err(e) => Err(e),
            Ok((s, n)) => Ok((Some(s), n)),
        }
    } else {
        if pos < end {
            Err(ErrV::plain(ErrBodyV::BodyNotAllowedWhenStatusIsNotZero(status)))
        } else {
            Ok((None, pos))
        }
    }
}

impl RespData {
    /// A populated body for a success response.
    pub fn new(value: &str, max_len: usize, field_name: &str) -> (r: Result<RespData, PduParseError>)
        ensures
            ({
                let sr = spec_co_from_str(value.spec_bytes(), max_len as int, field_name@);
                match r {
                    Ok(v) => sr matches Ok(s) && v@ == Some(s) && resp_wf(v@, max_len as int),
                    Err(e) => sr matches Err(e2) && e@ == e2,
                }
            }),
    {
        proof {
            crate::formats::lemma_find_bad_none(value.spec_bytes(), 0);
        }
        let value = fld(field_name, COctetString::from_str(value, max_len))?;
        Ok(RespData { value: Some(value) })
    }

    /// An empty body for an error response.
    pub fn new_error() -> (r: RespData)
        ensures
            r@ is None,
    {
        RespData { value: None }
    }

    /// Parse a response body from `[pos, end)` of `bytes`.
    pub fn parse(
        bytes: &[u8],
        pos: usize,
        end: usize,
        command_status: u32,
        max_len: usize,
        field_name: &str,
    ) -> (r: Result<(RespData, usize), PduParseError>)
        requires
            pos <= end <= bytes@.len(),
        ensures
            ({
                let sr = spec_read_resp_data(
                    bytes@,
                    pos as int,
                    end as int,
                    command_status,
                    max_len as int,
                    field_name@,
                );
                match r {
                    Ok((v, n)) => sr matches Ok((w, n2)) && v@ == w && n == n2 && resp_wf(
                        v@,
                        max_len as int,
                    ) && pos <= n <= end,
                    Err(e) => sr matches Err(e2) && e@ == e2,
                }
            }),
    {
        if command_status == 0 {
            let (value, n) = fld(field_name, COctetString::read(bytes, pos, end, max_len))?;
            Ok((RespData { value: Some(value) }, n))
        } else {
            if pos < end {
                Err(
                    PduParseError::new(
                        PduParseErrorBody::BodyNotAllowedWhenStatusIsNotZero(command_status),
                    ),
                )
            } else {
                Ok((RespData { value: None }, pos))
            }
        }
    }

    /// Append this body's wire bytes.
    pub fn write(&self, buf: &mut Vec<u8>)
        ensures
            final(buf)@ == old(buf)@ + resp_wire(self@),
    {
        match &self.value {
            Some(v) => v.write(buf),
            None => {
                assert(buf@ =~= old(buf)@ + resp_wire(self@));
            },
        }
    }
}

/// A response body read touches only its window: reading from two
/// buffers that agree on `[pos, end)` yields the same outcome.
pub proof fn lemma_read_resp_data_congruent(
    b1: Seq<u8>,
    b2: Seq<u8>,
    pos: int,
    end: int,
    status: u32,
    max: int,
    field: Seq<char>,
)
    requires
        0 <= pos <= end,
        end <= b1.len(),
        end <= b2.len(),
        forall|i: int| pos <= i < end ==> b1[i] == b2[i],
    ensures
        spec_read_resp_data(b1, pos, end, status, max, field) == spec_read_resp_data(
            b2,
            pos,
            end,
            status,
            max,
            field,
        ),
{
    crate::formats::lemma_read_coctet_congruent(b1, b2, pos, end, max);
}

/// Parsing the wire bytes of a status-consistent response body yields
/// the body back: a populated body under a zero status, an empty one
/// under a non-zero status with nothing after it in the frame.
pub proof fn lemma_resp_data_roundtrip(
    b: Seq<u8>,
    pos: int,
    end: int,
    status: u32,
    max: int,
    field: Seq<char>,
    v: Option<Seq<u8>>,
)
    requires
        resp_wf(v, max),
        (v is Some) <==> status == 0,
        0 <= pos,
        pos + resp_wire(v).len() <= end <= b.len(),
        b.subrange(pos, pos + resp_wire(v).len()) == resp_wire(v),
        (v is None) ==> pos == end,
    ensures
        spec_read_resp_data(b, pos, end, status, max, field) == Ok::<(Option<Seq<u8>>, int), ErrV>(
            (v, pos + resp_wire(v).len()),
        ),
{
    match v {
        Some(s) => {
            lemma_read_coctet_wire(b, pos, end, max, s);
        },
        None => {
        },
    }
}

} // verus!
