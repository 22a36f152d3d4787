//! Custodial treasury core.
//!
//! A treasury record owns a bounded set of vaults and a bounded set of
//! automations, each addressed by a recycled one-byte identifier.  Vaults
//! gate outgoing transfers behind a policy (none, two-party approval, or
//! delegation to an external multisig); automations store a balance trigger
//! and a transfer action and execute conditionally.  The library computes
//! decisions and transfer intents over plain values; performing transfers,
//! consulting the authority directory and scheduling live with the host.

pub mod allocator;
pub mod auto;
pub mod constant;
pub mod error;
pub mod instructions;
pub mod key;
pub mod treasury;
pub mod util;
pub mod vault;
