//! The options the server runs with.

use vstd::prelude::*;

verus! {

/// The configuration of one server instance.
#[derive(Debug, Clone)]
pub struct SmscConfig {
    /// The address the listener binds on.
    pub bind_address: String,
    /// How many sockets may be open at once.
    pub max_open_sockets: usize,
    /// The identifier returned in every successful bind response.
    pub system_id: String,
}

} // verus!
