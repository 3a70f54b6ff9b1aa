use vstd::prelude::*;

verus! {

/// The public identifier of an account: an end user, an admin authority, or
/// a remote peer. On chain this would be a public key; here it is an opaque
/// numeric identifier compared only for equality.
#[derive(Clone, Copy, Debug, PartialEq, Eq, Structural)]
pub struct AccountId {
    pub id: u64,
}

} // verus!
