use vstd::prelude::*;

use crate::account::AccountId;

verus! {

/// The bridge configuration held by the store: which destination chain this
/// adapter sends to, and the trusted peer address on that chain. A lock is
/// accepted only for the configured destination chain; the trusted remote is
/// the peer that the messaging layer addresses when it dispatches an
/// outbound message.
#[derive(Clone, Copy, Debug, PartialEq, Eq, Structural)]
pub struct BridgeConfig {
    pub destination_chain: u64,
    pub trusted_remote: AccountId,
}

/// The one persistent configuration record of an adapter instance: its admin
/// authority and its bridge configuration. Created once by `initialize` and
/// changed only through admin-authorized configuration calls.
#[derive(Clone, Copy, Debug, PartialEq, Eq, Structural)]
pub struct Store {
    pub admin: AccountId,
    pub bridge_config: BridgeConfig,
}

} // verus!
