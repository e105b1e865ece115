//! The key that identifies an in-flight message across clients: the
//! namespace of the submitting system, the message id the logic
//! assigned, and the submitter's address.

use vstd::prelude::*;
use vstd::string::StringExecFns;

verus! {

/// The identity of one accepted message.
#[derive(Debug, PartialEq, Clone)]
pub struct MessageUniqueKey {
    pub system_id_namespace: String,
    pub message_id: String,
    pub submitter_addr: String,
}

/// The mathematical value of a message key.
pub struct MukV {
    pub system_id_namespace: Seq<char>,
    pub message_id: Seq<char>,
    pub submitter_addr: Seq<char>,
}

impl View for MessageUniqueKey {
    type V = MukV;

    open spec fn view(&self) -> MukV {
        MukV {
            system_id_namespace: self.system_id_namespace@,
            message_id: self.message_id@,
            submitter_addr: self.submitter_addr@,
        }
    }
}

impl MessageUniqueKey {
    /// Build a key from its three parts.
    pub fn new(system_id_namespace: &str, message_id: &str, submitter_addr: &str) -> (r:
        MessageUniqueKey)
        ensures
            r@.system_id_namespace == system_id_namespace@,
            r@.message_id == message_id@,
            r@.submitter_addr == submitter_addr@,
    {
        MessageUniqueKey {
            system_id_namespace: String::from_str(system_id_namespace),
            message_id: String::from_str(message_id),
            submitter_addr: String::from_str(submitter_addr),
        }
    }
}

} // verus!
