//! The SMPP command status codes this implementation emits.

use vstd::prelude::*;

verus! {

/// No error.
pub const ESME_ROK: u32 = 0x00000000;

/// Invalid command length.
pub const ESME_RINVCMDLEN: u32 = 0x00000002;

/// Invalid or unsupported command id.
pub const ESME_RINVCMDID: u32 = 0x00000003;

/// General system error.
pub const ESME_RSYSERR: u32 = 0x00000008;

/// Invalid password.
pub const ESME_RINVPASWD: u32 = 0x0000000E;

} // verus!
