use vstd::prelude::*;

verus! {

/// Every way an adapter instruction can fail. Each failure is surfaced
/// synchronously to the caller with one of these codes; no instruction has a
/// partial effect when it fails.
#[derive(Clone, Copy, Debug, PartialEq, Eq, Structural)]
pub enum AdapterError {
    /// `initialize` was called on an adapter whose store already exists.
    AlreadyInitialized,
    /// A configuration call came from an account other than the admin.
    Unauthorized,
    /// A lock named a destination chain that is not the configured one.
    InvalidDestination,
    /// A lock asked for more than the user's ledger balance.
    InsufficientFunds,
    /// A lock asked for an amount of zero.
    ZeroAmount,
    /// An unlock named a nonce that is not an outstanding lock: either it was
    /// already consumed, or it never named a lock at all. The adapter cannot
    /// tell a replay from a forged reference, so both fail closed here.
    ReplayedMessage,
    /// An unlock asked for more than the vault holds. With correctly paired
    /// lock and unlock messages this cannot happen; it signals a broken
    /// pairing elsewhere and aborts the instruction.
    InsufficientEscrow,
}

} // verus!
