//! A non-destructive test on a buffered byte stream: does it hold a
//! complete PDU?  The checker reads only the four-byte length prefix
//! and never allocates in proportion to a declared but unverified
//! length.

use vstd::prelude::*;

use crate::formats::{spec_be32, Integer4};
use crate::validate_command_length::{
    spec_validate_command_length, validate_command_length, CommandLengthError,
};

verus! {

/// Whether a full PDU is buffered.
#[derive(Debug, PartialEq, Eq, Structural, Clone, Copy)]
pub enum CheckOutcome {
    /// A complete PDU is present.
    Ready,
    /// The buffer does not yet hold a full PDU; read more and retry.
    Incomplete,
}

/// Why a buffer can never become a valid PDU.
#[derive(Debug, PartialEq, Eq, Structural, Clone, Copy)]
pub enum CheckError {
    /// The declared length lies outside the global bounds.
    CommandLengthError(CommandLengthError),
    /// The underlying reader failed; never produced by `check` itself,
    /// which reads from a buffer, but reserved for callers that feed
    /// the buffer from fallible I/O.
    IoError,
}

/// What checking a buffer yields: fewer than four bytes are incomplete;
/// a declared length outside the bounds is an error; otherwise the
/// buffer is ready exactly when it holds the declared length.
pub open spec fn spec_check(b: Seq<u8>) -> Result<CheckOutcome, CheckError> {
    if b.len() < 4 {
        Ok(CheckOutcome::Incomplete)
    } else {
        let n = spec_be32(b[0], b[1], b[2], b[3]);
        match spec_validate_command_length(n) {
            Err(e) => Err(CheckError::CommandLengthError(e)),
            Ok(_) => if b.len() >= n {
                Ok(CheckOutcome::Ready)
            } else {
                Ok(CheckOutcome::Incomplete)
            },
        }
    }
}

/// Test whether `bytes` holds a complete PDU.
pub fn check(bytes: &[u8]) -> (r: Result<CheckOutcome, CheckError>)
    ensures
        r == spec_check(bytes@),
{
    let len = bytes.len();
    match Integer4::read(bytes, 0, len) {
        Err(_) => Ok(CheckOutcome::Incomplete),
        Ok((n, _)) => {
            match validate_command_length(&n) {
                Err(e) => Err(CheckError::CommandLengthError(e)),
                Ok(_) => {
                    if n.value <= 4 {
                        // Unreachable: the minimum length is above 4.
                        Ok(CheckOutcome::Ready)
                    } else if len >= 4 && (n.value - 4) as usize <= len - 4 {
                        Ok(CheckOutcome::Ready)
                    } else {
                        Ok(CheckOutcome::Incomplete)
                    }
                },
            }
        },
    }
}

/// The number of buffered bytes the PDU at the head of `bytes` spans:
/// meaningful when `check` said `Ready`.
pub fn frame_length(bytes: &[u8]) -> (r: usize)
    requires
        spec_check(bytes@) == Result::<CheckOutcome, CheckError>::Ok(CheckOutcome::Ready),
    ensures
        4 <= r <= bytes@.len(),
        r == spec_be32(bytes@[0], bytes@[1], bytes@[2], bytes@[3]),
{
    let len = bytes.len();
    match Integer4::read(bytes, 0, len) {
        Err(_) => 4,
        Ok((n, _)) => n.value as usize,
    }
}

} // verus!
