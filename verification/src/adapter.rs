use vstd::prelude::*;

use crate::account::AccountId;
use crate::errors::AdapterError;
use crate::ledger::Ledger;
use crate::records::{LockRecord, LockState, OutboundMessage};
use crate::store::{BridgeConfig, Store};

verus! {

/// The arguments of `initialize`: the admin authority of the new store and
/// the bridge configuration it starts with.
#[derive(Clone, Copy, Debug, PartialEq, Eq, Structural)]
pub struct Initialize {
    pub admin: AccountId,
    pub bridge_config: BridgeConfig,
}

/// The arguments of `lock_tokens`: who locks, how much, and where the
/// corresponding tokens are to be released on the destination chain.
#[derive(Clone, Copy, Debug, PartialEq, Eq, Structural)]
pub struct LockTokens {
    pub user: AccountId,
    pub amount: u64,
    pub destination_chain: u64,
    pub recipient: AccountId,
}

/// One adapter instance: the store (absent until `initialize`), the escrow
/// vault — modeled by its balance, since the adapter owns it exclusively —
/// the custody ledger of user balances, the per-lock records, and the next
/// fresh nonce. Every instruction is a single atomic state transition: it
/// either applies its whole effect or returns an error and changes nothing.
pub struct Adapter {
    pub store: Option<Store>,
    pub vault_balance: u64,
    pub ledger: Ledger,
    pub records: Vec<LockRecord>,
    pub next_nonce: u64,
}

/// The store that `initialize` creates.
pub open spec fn store_of(args: Initialize) -> Store {
    Store { admin: args.admin, bridge_config: args.bridge_config }
}

/// The store after an admin swapped in a new bridge configuration.
pub open spec fn with_config(st: Store, c: BridgeConfig) -> Store {
    Store { admin: st.admin, bridge_config: c }
}

/// The record that a successful lock appends.
pub open spec fn lock_record_of(pre: Adapter, args: LockTokens) -> LockRecord {
    LockRecord {
        owner: args.user,
        amount: args.amount,
        destination_chain: args.destination_chain,
        recipient: args.recipient,
        nonce: pre.next_nonce,
        state: LockState::Locked,
    }
}

/// The cross-chain send request that a successful lock emits.
pub open spec fn lock_message_of(pre: Adapter, args: LockTokens) -> OutboundMessage {
    OutboundMessage {
        destination_chain: args.destination_chain,
        amount: args.amount,
        recipient: args.recipient,
        nonce: pre.next_nonce,
    }
}

/// A lock record in `Unlocked` state, otherwise as it was.
pub open spec fn consumed_record(r: LockRecord) -> LockRecord {
    LockRecord {
        owner: r.owner,
        amount: r.amount,
        destination_chain: r.destination_chain,
        recipient: r.recipient,
        nonce: r.nonce,
        state: LockState::Unlocked,
    }
}

/// When a lock is accepted: a positive amount, the configured destination
/// chain, and a user balance that covers the amount.
pub open spec fn lock_permitted(pre: Adapter, args: LockTokens) -> bool {
    &&& args.amount > 0
    &&& pre.trusted_destination(args.destination_chain)
    &&& args.amount <= pre.spec_balance(args.user)
}

/// The error a rejected lock reports. A zero amount is reported before an
/// untrusted destination, and that before an insufficient balance.
pub open spec fn lock_rejection(pre: Adapter, args: LockTokens) -> AdapterError {
    if args.amount == 0 {
        AdapterError::ZeroAmount
    } else if !pre.trusted_destination(args.destination_chain) {
        AdapterError::InvalidDestination
    } else {
        AdapterError::InsufficientFunds
    }
}

/// The whole effect of a successful lock: the user's balance goes down by
/// the amount, no other balance moves, the vault goes up by the amount, the
/// new lock record is appended, and the next nonce advances.
pub open spec fn lock_applied(pre: Adapter, post: Adapter, args: LockTokens) -> bool {
    &&& post.spec_balance(args.user) == pre.spec_balance(args.user) - args.amount
    &&& forall|a: AccountId|
        a != args.user ==> #[trigger] post.spec_balance(a) == pre.spec_balance(a)
    &&& post.vault_balance == pre.vault_balance + args.amount
    &&& post.ledger.spec_total() == pre.ledger.spec_total() - args.amount
    &&& post.records@ == pre.records@.push(lock_record_of(pre, args))
    &&& post.next_nonce == pre.next_nonce + 1
    &&& post.store == pre.store
}

/// When an unlock is accepted: its nonce names an outstanding lock and the
/// vault covers the amount.
pub open spec fn unlock_permitted(pre: Adapter, nonce: u64, amount: u64) -> bool {
    &&& pre.nonce_outstanding(nonce)
    &&& amount <= pre.vault_balance
}

/// The error a rejected unlock reports: a nonce that names no outstanding
/// lock before an amount the vault cannot cover.
pub open spec fn unlock_rejection(pre: Adapter, nonce: u64, amount: u64) -> AdapterError {
    if !pre.nonce_outstanding(nonce) {
        AdapterError::ReplayedMessage
    } else {
        AdapterError::InsufficientEscrow
    }
}

/// The whole effect of a successful unlock: the recipient's balance goes up
/// by the amount, no other balance moves, the vault goes down by the amount,
/// and the one outstanding record of the nonce is closed in place.
pub open spec fn unlock_applied(
    pre: Adapter,
    post: Adapter,
    nonce: u64,
    recipient: AccountId,
    amount: u64,
) -> bool {
    &&& post.spec_balance(recipient) == pre.spec_balance(recipient) + amount
    &&& forall|a: AccountId|
        a != recipient ==> #[trigger] post.spec_balance(a) == pre.spec_balance(a)
    &&& post.vault_balance == pre.vault_balance - amount
    &&& post.ledger.spec_total() == pre.ledger.spec_total() + amount
    &&& exists|i: int|
        {
            &&& 0 <= i < pre.records@.len()
            &&& (#[trigger] pre.records@[i]).nonce == nonce
            &&& pre.records@[i].state is Locked
            &&& post.records@ == pre.records@.update(i, consumed_record(pre.records@[i]))
        }
    &&& post.next_nonce == pre.next_nonce
    &&& post.store == pre.store
}

/// Everything but the store is as it was: balances, vault, records, nonce.
pub open spec fn custody_unchanged(pre: Adapter, post: Adapter) -> bool {
    &&& forall|a: AccountId| #[trigger] post.spec_balance(a) == pre.spec_balance(a)
    &&& post.vault_balance == pre.vault_balance
    &&& post.ledger.spec_total() == pre.ledger.spec_total()
    &&& post.records@ == pre.records@
    &&& post.next_nonce == pre.next_nonce
}

impl Adapter {
    /// The balance the custody ledger holds for `a`.
    pub open spec fn spec_balance(self, a: AccountId) -> u64 {
        self.ledger.spec_balance(a)
    }

    /// Whether `chain` is the configured destination. Nothing is trusted
    /// before `initialize`.
    pub open spec fn trusted_destination(self, chain: u64) -> bool {
        match self.store {
            Some(st) => chain == st.bridge_config.destination_chain,
            None => false,
        }
    }

    /// Whether `caller` is the admin of an existing store.
    pub open spec fn authorized_admin(self, caller: AccountId) -> bool {
        match self.store {
            Some(st) => caller == st.admin,
            None => false,
        }
    }

    /// Whether `nonce` names a lock record that is still open.
    pub open spec fn nonce_outstanding(self, nonce: u64) -> bool {
        exists|i: int|
            0 <= i < self.records@.len() && (#[trigger] self.records@[i]).nonce == nonce
                && self.records@[i].state is Locked
    }

    /// Whether `nonce` names a lock record that was already closed.
    pub open spec fn nonce_consumed(self, nonce: u64) -> bool {
        exists|i: int|
            0 <= i < self.records@.len() && (#[trigger] self.records@[i]).nonce == nonce
                && self.records@[i].state is Unlocked
    }

    /// Well-formedness of an adapter: the ledger is well formed, all custody
    /// (ledger plus vault) fits in a machine word, record nonces are unique,
    /// and every issued nonce is below the next fresh one.
    pub open spec fn wf(self) -> bool {
        &&& self.ledger.wf()
        &&& self.ledger.spec_total() + self.vault_balance <= u64::MAX
        &&& forall|i: int, j: int|
            0 <= i < j < self.records@.len() ==> self.records@[i].nonce != self.records@[j].nonce
        &&& forall|i: int|
            0 <= i < self.records@.len() ==> (#[trigger] self.records@[i]).nonce < self.next_nonce
    }

    /// A fresh, uninitialized adapter: no store, empty vault, empty ledger,
    /// no records.
    pub fn new() -> (a: Adapter)
        ensures
            a.wf(),
            a.store is None,
            a.vault_balance == 0,
            a.ledger.spec_total() == 0,
            forall|x: AccountId| a.spec_balance(x) == 0,
            a.records@.len() == 0,
            a.next_nonce == 0,
    {
        Adapter {
            store: None,
            vault_balance: 0,
            ledger: Ledger::new(),
            records: Vec::new(),
            next_nonce: 0,
        }
    }

    /// The balance the custody ledger holds for `a`.
    pub fn balance_of(&self, a: AccountId) -> (r: u64)
        requires
            self.wf(),
        ensures
            r == self.spec_balance(a),
    {
        self.ledger.balance_of(a)
    }

    /// Seeds the custody ledger: gives `owner` `amount` more tokens, as a
    /// deposit from outside the adapter would. Succeeds exactly when the new
    /// custody total still fits in a machine word; on failure nothing moves.
    pub fn fund(&mut self, owner: AccountId, amount: u64) -> (ok: bool)
        requires
            old(self).wf(),
        ensures
            final(self).wf(),
            ok == (old(self).ledger.spec_total() + old(self).vault_balance + amount
                <= u64::MAX),
            ok ==> {
                &&& final(self).spec_balance(owner) == old(self).spec_balance(owner) + amount
                &&& forall|a: AccountId|
                    a != owner ==> #[trigger] final(self).spec_balance(a) == old(
                        self,
                    ).spec_balance(a)
                &&& final(self).ledger.spec_total() == old(self).ledger.spec_total() + amount
                &&& final(self).vault_balance == old(self).vault_balance
                &&& final(self).records@ == old(self).records@
                &&& final(self).next_nonce == old(self).next_nonce
                &&& final(self).store == old(self).store
            },
            !ok ==> *final(self) == *old(self),
    {
        let t: u64 = self.ledger.total();
        if amount <= u64::MAX - t && self.vault_balance <= u64::MAX - t - amount {
            self.ledger.credit(owner, amount);
            true
        } else {
            false
        }
    }

    /// Creates the store, with `args.admin` as admin and `args.bridge_config`
    /// as the starting configuration. Fails with `AlreadyInitialized`, and
    /// changes nothing, exactly when the store already exists.
    pub fn initialize(&mut self, args: Initialize) -> (r: Result<(), AdapterError>)
        requires
            old(self).wf(),
        ensures
            final(self).wf(),
            match r {
                Ok(()) => {
                    &&& old(self).store is None
                    &&& final(self).store == Some(store_of(args))
                    &&& custody_unchanged(*old(self), *final(self))
                },
                Err(e) => {
                    &&& old(self).store is Some
                    &&& e == AdapterError::AlreadyInitialized
                    &&& *final(self) == *old(self)
                },
            },
    {
        if self.store.is_some() {
            return Err(AdapterError::AlreadyInitialized);
        }
        self.store = Some(Store { admin: args.admin, bridge_config: args.bridge_config });
        Ok(())
    }

    /// Replaces the bridge configuration, keeping the admin. Fails with
    /// `Unauthorized`, and changes nothing, exactly when `caller` is not the
    /// admin of an existing store.
    pub fn update_config(&mut self, caller: AccountId, new_config: BridgeConfig) -> (r: Result<
        (),
        AdapterError,
    >)
        requires
            old(self).wf(),
        ensures
            final(self).wf(),
            match r {
                Ok(()) => {
                    &&& old(self).authorized_admin(caller)
                    &&& old(self).store matches Some(st) && final(self).store == Some(
                        with_config(st, new_config),
                    )
                    &&& custody_unchanged(*old(self), *final(self))
                },
                Err(e) => {
                    &&& !old(self).authorized_admin(caller)
                    &&& e == AdapterError::Unauthorized
                    &&& *final(self) == *old(self)
                },
            },
    {
        match self.store {
            Some(st) => {
                if caller == st.admin {
                    self.store = Some(Store { admin: st.admin, bridge_config: new_config });
                    Ok(())
                } else {
                    Err(AdapterError::Unauthorized)
                }
            },
            None => Err(AdapterError::Unauthorized),
        }
    }

    /// Locks tokens: debits the user, credits the vault, appends a lock
    /// record under a fresh nonce, and returns the cross-chain send request
    /// for the messaging layer to dispatch — all as one atomic step, or an
    /// error and no change at all. Accepted exactly when the amount is
    /// positive, the destination chain is the configured one, and the user's
    /// balance covers the amount; rejections report `ZeroAmount`,
    /// `InvalidDestination` and `InsufficientFunds` in that order of
    /// precedence.
    pub fn lock_tokens(&mut self, args: LockTokens) -> (r: Result<OutboundMessage, AdapterError>)
        requires
            old(self).wf(),
            old(self).next_nonce < u64::MAX,
        ensures
            final(self).wf(),
            match r {
                Ok(msg) => {
                    &&& lock_permitted(*old(self), args)
                    &&& lock_applied(*old(self), *final(self), args)
                    &&& msg == lock_message_of(*old(self), args)
                },
                Err(e) => {
                    &&& !lock_permitted(*old(self), args)
                    &&& e == lock_rejection(*old(self), args)
                    &&& *final(self) == *old(self)
                },
            },
    {
        if args.amount == 0 {
            return Err(AdapterError::ZeroAmount);
        }
        let trusted: bool = match self.store {
            Some(st) => args.destination_chain == st.bridge_config.destination_chain,
            None => false,
        };
        if !trusted {
            return Err(AdapterError::InvalidDestination);
        }
        let bal: u64 = self.ledger.balance_of(args.user);
        if bal < args.amount {
            return Err(AdapterError::InsufficientFunds);
        }
        proof {
            self.ledger.lemma_balance_le_total(args.user);
        }
        self.ledger.debit(args.user, args.amount);
        self.vault_balance = self.vault_balance + args.amount;
        let nonce: u64 = self.next_nonce;
        self.next_nonce = nonce + 1;
        self.records.push(
            LockRecord {
                owner: args.user,
                amount: args.amount,
                destination_chain: args.destination_chain,
                recipient: args.recipient,
                nonce,
                state: LockState::Locked,
            },
        );
        Ok(
            OutboundMessage {
                destination_chain: args.destination_chain,
                amount: args.amount,
                recipient: args.recipient,
                nonce,
            },
        )
    }

    /// The index of the still-open lock record of `nonce`, if there is one.
    fn find_locked(records: &Vec<LockRecord>, nonce: u64) -> (r: Option<usize>)
        ensures
            match r {
                Some(i) => i < records@.len() && records@[i as int].nonce == nonce
                    && records@[i as int].state is Locked,
                None => forall|j: int|
                    0 <= j < records@.len() ==> !((#[trigger] records@[j]).nonce == nonce
                        && records@[j].state is Locked),
            },
    {
        let n: usize = records.len();
        let mut i: usize = 0;
        while i < n
            invariant
                n == records@.len(),
                i <= n,
                forall|j: int|
                    0 <= j < i ==> !((#[trigger] records@[j]).nonce == nonce
                        && records@[j].state is Locked),
            decreases n - i,
        {
            if records[i].nonce == nonce && records[i].state == LockState::Locked {
                return Some(i);
            }
            i = i + 1;
        }
        None
    }

    /// Releases tokens out of the vault for an inbound message whose
    /// authenticity the messaging layer has already verified: credits the
    /// recipient, debits the vault, and closes the lock record of the nonce —
    /// all as one atomic step, or an error and no change at all. Accepted
    /// exactly when the nonce names an outstanding lock (else
    /// `ReplayedMessage`: a consumed nonce can never be accepted again) and
    /// the vault covers the amount (else `InsufficientEscrow`).
    pub fn unlock_tokens(&mut self, nonce: u64, recipient: AccountId, amount: u64) -> (r: Result<
        (),
        AdapterError,
    >)
        requires
            old(self).wf(),
        ensures
            final(self).wf(),
            match r {
                Ok(()) => {
                    &&& unlock_permitted(*old(self), nonce, amount)
                    &&& unlock_applied(*old(self), *final(self), nonce, recipient, amount)
                    &&& final(self).nonce_consumed(nonce)
                    &&& !final(self).nonce_outstanding(nonce)
                },
                Err(e) => {
                    &&& !unlock_permitted(*old(self), nonce, amount)
                    &&& e == unlock_rejection(*old(self), nonce, amount)
                    &&& *final(self) == *old(self)
                },
            },
    {
        let idx: usize = match Self::find_locked(&self.records, nonce) {
            Some(i) => i,
            None => {
                return Err(AdapterError::ReplayedMessage);
            },
        };
        if self.vault_balance < amount {
            return Err(AdapterError::InsufficientEscrow);
        }
        self.vault_balance = self.vault_balance - amount;
        self.ledger.credit(recipient, amount);
        let rec: LockRecord = self.records[idx];
        self.records[idx] = LockRecord {
            owner: rec.owner,
            amount: rec.amount,
            destination_chain: rec.destination_chain,
            recipient: rec.recipient,
            nonce: rec.nonce,
            state: LockState::Unlocked,
        };
        proof {
            assert forall|j: int|
                0 <= j < self.records@.len() implies !((#[trigger] self.records@[j]).nonce == nonce
                && self.records@[j].state is Locked) by {
                if j != idx {
                    assert(self.records@[j] == old(self).records@[j]);
                }
            }
        }
        Ok(())
    }
}

} // verus!
