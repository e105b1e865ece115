//! An SMPP v3.4 Short Message Service Center core: a verified PDU codec
//! (framing, parsing and emitting of length-prefixed binary PDUs), a
//! structured parse-error model, and the pure decision logic of the
//! session engine and the message router.  All I/O lives outside this
//! crate; every function here works on plain values and byte buffers.

pub mod bind_data;
pub mod check;
pub mod esm_class;
pub mod formats;
pub mod laws;
pub mod message_unique_key;
pub mod operations;
pub mod pdu;
pub mod pduparseerror;
pub mod render;
pub mod resp_data;
pub mod session;
pub mod sm_data;
pub mod smsc;
pub mod smsc_config;
pub mod smsc_logic;
pub mod status;
pub mod validate_command_length;
