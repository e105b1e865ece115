//! The global bounds every PDU's declared `command_length` must meet.

use vstd::prelude::*;

use crate::formats::Integer4;

verus! {

/// No valid PDU is longer than 70000 octets: the largest optional
/// payload a PDU may carry holds up to 64K octets, so this bound leaves
/// comfortable room for every defined operation.
pub const MAX_PDU_LENGTH: u32 = 70000;

/// A PDU needs at least a `command_length` and a `command_id`: 8 octets.
pub const MIN_PDU_LENGTH: u32 = 8;

/// A declared `command_length` outside the global bounds.
#[derive(Debug, PartialEq, Eq, Structural, Clone, Copy)]
pub enum CommandLengthError {
    TooLong(u32),
    TooShort(u32),
}

/// Which bound, if any, a declared length breaks.
pub open spec fn spec_validate_command_length(len: u32) -> Result<(), CommandLengthError> {
    if len > MAX_PDU_LENGTH {
        Err(CommandLengthError::TooLong(len))
    } else if len < MIN_PDU_LENGTH {
        Err(CommandLengthError::TooShort(len))
    } else {
        Ok(())
    }
}

/// Accept a declared `command_length` exactly when it lies within the
/// global bounds.
pub fn validate_command_length(command_length: &Integer4) -> (r: Result<(), CommandLengthError>)
    ensures
        r == spec_validate_command_length(command_length.value),
{
    let len = command_length.value;
    if len > MAX_PDU_LENGTH {
        Err(CommandLengthError::TooLong(len))
    } else if len < MIN_PDU_LENGTH {
        Err(CommandLengthError::TooShort(len))
    } else {
        Ok(())
    }
}

} // verus!
