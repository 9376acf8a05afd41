//! Node configuration as the core consumes it: identification data, the
//! signing identity, and the two execution budgets.  Loading these values
//! from disk or from a key-management program is the surrounding
//! application's concern.
use vstd::prelude::*;
use crate::sig::Identity;

verus! {

/// Server and client node configuration.
pub struct Config {
    /// Human-readable node name (at most 255 bytes when broadcast).
    pub name: Vec<u8>,
    /// Human-readable node description.
    pub description: Vec<u8>,
    /// The identity whose key signs every message this node emits.
    pub identity_key: Identity,
    /// Seconds between `PEER_ID_REC` broadcasts.
    pub pid_broadcast_frequency_secs: u64,
    /// Instruction budget for requests from untrusted senders.
    pub untrusted_max_cycles: u64,
    /// Instruction budget for requests from trusted senders.
    pub trusted_max_cycles: u64,
}

} // verus!
