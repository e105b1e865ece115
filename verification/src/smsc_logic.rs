//! The interface the host's business logic answers through, and the
//! mapping of its refusals to SMPP status codes.  The logic itself is
//! supplied by the host and called outside this crate; this crate only
//! interprets its answers.

use vstd::prelude::*;

use crate::status::{ESME_RINVPASWD, ESME_RSYSERR};

verus! {

/// Why the logic refused a bind.
#[derive(Debug, PartialEq, Eq, Structural, Clone, Copy)]
pub enum BindError {
    IncorrectPassword,
    InternalError,
}

/// Why the logic refused a submission.
#[derive(Debug, PartialEq, Eq, Structural, Clone, Copy)]
pub enum SubmitSmError {
    InternalError,
}

/// The status code a refused bind answers with.
pub open spec fn spec_bind_error_status(e: BindError) -> u32 {
    match e {
        BindError::IncorrectPassword => ESME_RINVPASWD,
        BindError::InternalError => ESME_RSYSERR,
    }
}

/// Map a bind refusal to its SMPP status code.
pub fn bind_error_status(e: &BindError) -> (r: u32)
    ensures
        r == spec_bind_error_status(*e),
{
    match e {
        BindError::IncorrectPassword => ESME_RINVPASWD,
        BindError::InternalError => ESME_RSYSERR,
    }
}

/// The status code a refused submission answers with.
pub open spec fn spec_submit_sm_error_status(e: SubmitSmError) -> u32 {
    match e {
        SubmitSmError::InternalError => ESME_RSYSERR,
    }
}

/// Map a submission refusal to its SMPP status code.
pub fn submit_sm_error_status(e: &SubmitSmError) -> (r: u32)
    ensures
        r == spec_submit_sm_error_status(*e),
{
    match e {
        SubmitSmError::InternalError => ESME_RSYSERR,
    }
}

} // verus!
