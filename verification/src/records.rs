use vstd::prelude::*;

use crate::account::AccountId;

verus! {

/// The lifecycle of a lock record. `Locked` is the initial state and
/// `Unlocked` is terminal: a record moves from `Locked` to `Unlocked` exactly
/// once, when its nonce is consumed, and never back.
#[derive(Clone, Copy, Debug, PartialEq, Eq, Structural)]
pub enum LockState {
    Locked,
    Unlocked,
}

/// One per-lock accounting entry, created when a user locks tokens. Its nonce
/// is unique among all records of the adapter and is what an inbound unlock
/// message references; consuming the nonce closes the record.
#[derive(Clone, Copy, Debug, PartialEq, Eq, Structural)]
pub struct LockRecord {
    pub owner: AccountId,
    pub amount: u64,
    pub destination_chain: u64,
    pub recipient: AccountId,
    pub nonce: u64,
    pub state: LockState,
}

/// What a record contributes to the outstanding escrow: its amount while it
/// is still locked, nothing once it is unlocked.
pub open spec fn outstanding_contrib(r: LockRecord) -> int {
    if r.state is Locked {
        r.amount as int
    } else {
        0
    }
}

/// The sum of all still-locked amounts of a run of records: what a solvent
/// escrow vault holds.
pub open spec fn outstanding_total(s: Seq<LockRecord>) -> int
    decreases s.len(),
{
    if s.len() == 0 {
        0
    } else {
        outstanding_contrib(s[0]) + outstanding_total(s.drop_first())
    }
}

/// Appending a record adds its contribution to the outstanding total.
pub proof fn lemma_outstanding_push(s: Seq<LockRecord>, r: LockRecord)
    ensures
        outstanding_total(s.push(r)) == outstanding_total(s) + outstanding_contrib(r),
    decreases s.len(),
{
    if s.len() == 0 {
        assert(s.push(r).drop_first() =~= s);
    } else {
        assert(s.push(r).drop_first() =~= s.drop_first().push(r));
        lemma_outstanding_push(s.drop_first(), r);
    }
}

/// Replacing one record swaps its contribution in the outstanding total.
pub proof fn lemma_outstanding_update(s: Seq<LockRecord>, i: int, r: LockRecord)
    requires
        0 <= i < s.len(),
    ensures
        outstanding_total(s.update(i, r)) == outstanding_total(s) - outstanding_contrib(s[i])
            + outstanding_contrib(r),
    decreases s.len(),
{
    if i == 0 {
        assert(s.update(0, r).drop_first() =~= s.drop_first());
    } else {
        assert(s.update(i, r).drop_first() =~= s.drop_first().update(i - 1, r));
        lemma_outstanding_update(s.drop_first(), i - 1, r);
    }
}

/// The cross-chain send request that a successful lock emits. The messaging
/// layer, not this crate, carries it to the destination chain; the payload is
/// the locked amount, the recipient on the destination chain, and the nonce
/// of the lock record it settles.
#[derive(Clone, Copy, Debug, PartialEq, Eq, Structural)]
pub struct OutboundMessage {
    pub destination_chain: u64,
    pub amount: u64,
    pub recipient: AccountId,
    pub nonce: u64,
}

} // verus!
