use vstd::prelude::*;

use crate::account::AccountId;
use crate::adapter::{
    consumed_record, lock_applied, lock_permitted, lock_record_of, unlock_applied,
    unlock_permitted, unlock_rejection, Adapter, LockTokens,
};
use crate::errors::AdapterError;
use crate::records::{
    lemma_outstanding_push, lemma_outstanding_update, outstanding_total,
};

verus! {

/// Escrow solvency under a lock: if the vault holds exactly the sum of the
/// outstanding locked amounts, any accepted lock keeps it so.
pub proof fn lemma_lock_preserves_solvency(pre: Adapter, post: Adapter, args: LockTokens)
    requires
        pre.vault_balance == outstanding_total(pre.records@),
        lock_permitted(pre, args),
        lock_applied(pre, post, args),
    ensures
        post.vault_balance == outstanding_total(post.records@),
{
    lemma_outstanding_push(pre.records@, lock_record_of(pre, args));
}

/// Escrow solvency under a matched unlock: if the vault holds exactly the
/// sum of the outstanding locked amounts, an accepted unlock whose amount is
/// the amount of the lock it settles keeps it so. (An unlock whose amount
/// differs from its lock's — a broken pairing — is the one way solvency can
/// drift.)
pub proof fn lemma_matched_unlock_preserves_solvency(
    pre: Adapter,
    post: Adapter,
    nonce: u64,
    recipient: AccountId,
    amount: u64,
)
    requires
        pre.wf(),
        pre.vault_balance == outstanding_total(pre.records@),
        forall|i: int|
            0 <= i < pre.records@.len() && (#[trigger] pre.records@[i]).nonce == nonce
                && pre.records@[i].state is Locked ==> pre.records@[i].amount == amount,
        unlock_applied(pre, post, nonce, recipient, amount),
    ensures
        post.vault_balance == outstanding_total(post.records@),
{
    let i = choose|i: int|
        {
            &&& 0 <= i < pre.records@.len()
            &&& (#[trigger] pre.records@[i]).nonce == nonce
            &&& pre.records@[i].state is Locked
            &&& post.records@ == pre.records@.update(
                i,
                consumed_record(pre.records@[i]),
            )
        };
    lemma_outstanding_update(pre.records@, i, consumed_record(pre.records@[i]));
}

/// Custody conservation under a lock: any accepted lock strictly decreases
/// the user's balance by exactly the locked amount, increases the vault by
/// the same amount, and so conserves both the user-plus-vault balance and
/// the whole ledger-plus-vault custody total.
pub proof fn lemma_lock_conserves_custody(pre: Adapter, post: Adapter, args: LockTokens)
    requires
        lock_permitted(pre, args),
        lock_applied(pre, post, args),
    ensures
        post.spec_balance(args.user) < pre.spec_balance(args.user),
        pre.spec_balance(args.user) - post.spec_balance(args.user) == args.amount,
        post.vault_balance == pre.vault_balance + args.amount,
        post.spec_balance(args.user) + post.vault_balance == pre.spec_balance(args.user)
            + pre.vault_balance,
        post.ledger.spec_total() + post.vault_balance == pre.ledger.spec_total()
            + pre.vault_balance,
{
}

/// Nonce freshness: the nonce a lock issues never names any earlier record,
/// open or closed — no two locks ever share a nonce, and a lock can never
/// resurrect a consumed one.
pub proof fn lemma_lock_nonce_fresh(pre: Adapter, post: Adapter, args: LockTokens)
    requires
        pre.wf(),
        lock_applied(pre, post, args),
    ensures
        !pre.nonce_outstanding(pre.next_nonce),
        !pre.nonce_consumed(pre.next_nonce),
        post.nonce_outstanding(pre.next_nonce),
{
    assert(post.records@[pre.records@.len() as int] == lock_record_of(pre, args));
}

/// Replay protection: once a nonce is consumed, no unlock that names it can
/// ever be accepted again — whatever the amount, it is rejected as
/// `ReplayedMessage`.
pub proof fn lemma_consumed_nonce_rejected(s: Adapter, nonce: u64, amount: u64)
    requires
        s.wf(),
        s.nonce_consumed(nonce),
    ensures
        !unlock_permitted(s, nonce, amount),
        unlock_rejection(s, nonce, amount) == AdapterError::ReplayedMessage,
{
    let i = choose|i: int|
        0 <= i < s.records@.len() && (#[trigger] s.records@[i]).nonce == nonce
            && s.records@[i].state is Unlocked;
    if s.nonce_outstanding(nonce) {
        let j = choose|j: int|
            0 <= j < s.records@.len() && (#[trigger] s.records@[j]).nonce == nonce
                && s.records@[j].state is Locked;
        assert(i != j);
        assert(false);
    }
}

/// An unlock consumes its nonce: after any accepted unlock of a well-formed
/// adapter, the nonce's record is closed and the nonce is no longer
/// outstanding.
pub proof fn lemma_unlock_consumes_nonce(
    pre: Adapter,
    post: Adapter,
    nonce: u64,
    recipient: AccountId,
    amount: u64,
)
    requires
        pre.wf(),
        unlock_applied(pre, post, nonce, recipient, amount),
    ensures
        post.nonce_consumed(nonce),
        !post.nonce_outstanding(nonce),
{
    let i = choose|i: int|
        {
            &&& 0 <= i < pre.records@.len()
            &&& (#[trigger] pre.records@[i]).nonce == nonce
            &&& pre.records@[i].state is Locked
            &&& post.records@ == pre.records@.update(
                i,
                consumed_record(pre.records@[i]),
            )
        };
    assert(post.records@[i].state is Unlocked);
    if post.nonce_outstanding(nonce) {
        let j = choose|j: int|
            0 <= j < post.records@.len() && (#[trigger] post.records@[j]).nonce == nonce
                && post.records@[j].state is Locked;
        assert(j != i);
        assert(post.records@[j] == pre.records@[j]);
        assert(false);
    }
}

/// Round trip: locking an amount and then unlocking the matching nonce for
/// that amount, back to the user who locked, restores every balance and the
/// vault to what they were before the lock; the custody total is unchanged
/// throughout. (The vault balance is a machine word at every step, so it
/// never goes below zero.)
pub proof fn lemma_lock_unlock_round_trip(
    s0: Adapter,
    s1: Adapter,
    s2: Adapter,
    args: LockTokens,
)
    requires
        lock_permitted(s0, args),
        lock_applied(s0, s1, args),
        unlock_applied(s1, s2, s0.next_nonce, args.user, args.amount),
    ensures
        forall|a: AccountId| #[trigger] s2.spec_balance(a) == s0.spec_balance(a),
        s2.vault_balance == s0.vault_balance,
        s2.ledger.spec_total() == s0.ledger.spec_total(),
        s2.store == s0.store,
{
    assert forall|a: AccountId| #[trigger] s2.spec_balance(a) == s0.spec_balance(a) by {
        if a == args.user {
            assert(s1.spec_balance(a) == s0.spec_balance(a) - args.amount);
            assert(s2.spec_balance(a) == s1.spec_balance(a) + args.amount);
        } else {
            assert(s1.spec_balance(a) == s0.spec_balance(a));
            assert(s2.spec_balance(a) == s1.spec_balance(a));
        }
    }
}

} // verus!
