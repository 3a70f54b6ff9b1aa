//! A verified token-custody adapter for the lock leg of a lock-and-mint
//! bridge: users lock tokens into an escrow vault and a cross-chain send
//! request is emitted; a later, externally verified unlock message releases
//! tokens back out of the vault, with per-nonce replay protection.

pub mod account;
pub mod adapter;
pub mod errors;
pub mod laws;
pub mod ledger;
pub mod records;
pub mod store;
