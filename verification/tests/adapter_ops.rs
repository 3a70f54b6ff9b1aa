use oft_adapter::account::AccountId;
use oft_adapter::adapter::{Adapter, Initialize, LockTokens};
use oft_adapter::errors::AdapterError;
use oft_adapter::records::{LockState, OutboundMessage};
use oft_adapter::store::{BridgeConfig, Store};

const DEST: u64 = 2;

fn acct(n: u64) -> AccountId {
    AccountId { id: n }
}

fn config() -> BridgeConfig {
    BridgeConfig {
        destination_chain: DEST,
        trusted_remote: acct(99),
    }
}

/// An adapter with admin 1 and `user` funded with `balance` tokens.
fn setup(user: AccountId, balance: u64) -> Adapter {
    let mut a = Adapter::new();
    a.initialize(Initialize {
        admin: acct(1),
        bridge_config: config(),
    })
    .unwrap();
    assert!(a.fund(user, balance));
    a
}

#[test]
fn initialize_creates_store() {
    let mut a = Adapter::new();
    assert!(a.store.is_none());
    let r = a.initialize(Initialize {
        admin: acct(1),
        bridge_config: config(),
    });
    assert_eq!(r, Ok(()));
    assert_eq!(
        a.store,
        Some(Store {
            admin: acct(1),
            bridge_config: config(),
        })
    );
}

#[test]
fn initialize_twice_fails() {
    let mut a = Adapter::new();
    a.initialize(Initialize {
        admin: acct(1),
        bridge_config: config(),
    })
    .unwrap();
    let r = a.initialize(Initialize {
        admin: acct(2),
        bridge_config: config(),
    });
    assert_eq!(r, Err(AdapterError::AlreadyInitialized));
    assert_eq!(a.store.unwrap().admin, acct(1));
}

#[test]
fn update_config_by_admin() {
    let mut a = setup(acct(5), 100);
    let new_config = BridgeConfig {
        destination_chain: 7,
        trusted_remote: acct(42),
    };
    assert_eq!(a.update_config(acct(1), new_config), Ok(()));
    assert_eq!(
        a.store,
        Some(Store {
            admin: acct(1),
            bridge_config: new_config,
        })
    );
    // The newly configured chain is now the trusted one.
    let r = a.lock_tokens(LockTokens {
        user: acct(5),
        amount: 10,
        destination_chain: 7,
        recipient: acct(8),
    });
    assert!(r.is_ok());
    let r = a.lock_tokens(LockTokens {
        user: acct(5),
        amount: 10,
        destination_chain: DEST,
        recipient: acct(8),
    });
    assert_eq!(r, Err(AdapterError::InvalidDestination));
}

#[test]
fn update_config_unauthorized() {
    let mut a = setup(acct(5), 100);
    let r = a.update_config(acct(3), config());
    assert_eq!(r, Err(AdapterError::Unauthorized));
    assert_eq!(a.store.unwrap().bridge_config, config());
}

#[test]
fn update_config_before_initialize() {
    let mut a = Adapter::new();
    assert_eq!(
        a.update_config(acct(1), config()),
        Err(AdapterError::Unauthorized)
    );
}

#[test]
fn lock_moves_tokens_and_conserves_custody() {
    let user = acct(5);
    let mut a = setup(user, 500);
    let r = a.lock_tokens(LockTokens {
        user,
        amount: 100,
        destination_chain: DEST,
        recipient: acct(8),
    });
    assert_eq!(
        r,
        Ok(OutboundMessage {
            destination_chain: DEST,
            amount: 100,
            recipient: acct(8),
            nonce: 0,
        })
    );
    assert_eq!(a.balance_of(user), 400);
    assert_eq!(a.vault_balance, 100);
    // User plus vault custody is conserved.
    assert_eq!(a.balance_of(user) + a.vault_balance, 500);
    assert_eq!(a.records.len(), 1);
    assert_eq!(a.records[0].owner, user);
    assert_eq!(a.records[0].amount, 100);
    assert_eq!(a.records[0].nonce, 0);
    assert_eq!(a.records[0].state, LockState::Locked);
}

#[test]
fn lock_nonces_are_fresh_and_increasing() {
    let user = acct(5);
    let mut a = setup(user, 500);
    let args = LockTokens {
        user,
        amount: 100,
        destination_chain: DEST,
        recipient: acct(8),
    };
    let m0 = a.lock_tokens(args).unwrap();
    let m1 = a.lock_tokens(args).unwrap();
    assert_eq!(m0.nonce, 0);
    assert_eq!(m1.nonce, 1);
    assert_eq!(a.next_nonce, 2);
    assert_eq!(a.vault_balance, 200);
    assert_eq!(a.balance_of(user), 300);
}

#[test]
fn lock_zero_amount_fails_without_effect() {
    let user = acct(5);
    let mut a = setup(user, 500);
    let r = a.lock_tokens(LockTokens {
        user,
        amount: 0,
        destination_chain: DEST,
        recipient: acct(8),
    });
    assert_eq!(r, Err(AdapterError::ZeroAmount));
    assert_eq!(a.balance_of(user), 500);
    assert_eq!(a.vault_balance, 0);
    assert_eq!(a.records.len(), 0);
    assert_eq!(a.next_nonce, 0);
}

#[test]
fn lock_zero_amount_reported_before_bad_destination() {
    let user = acct(5);
    let mut a = setup(user, 500);
    let r = a.lock_tokens(LockTokens {
        user,
        amount: 0,
        destination_chain: DEST + 1,
        recipient: acct(8),
    });
    assert_eq!(r, Err(AdapterError::ZeroAmount));
}

#[test]
fn lock_untrusted_destination_fails_without_effect() {
    let user = acct(5);
    let mut a = setup(user, 500);
    let r = a.lock_tokens(LockTokens {
        user,
        amount: 100,
        destination_chain: 3,
        recipient: acct(8),
    });
    assert_eq!(r, Err(AdapterError::InvalidDestination));
    assert_eq!(a.balance_of(user), 500);
    assert_eq!(a.vault_balance, 0);
    assert_eq!(a.records.len(), 0);
}

#[test]
fn lock_before_initialize_fails() {
    let mut a = Adapter::new();
    assert!(a.fund(acct(5), 100));
    let r = a.lock_tokens(LockTokens {
        user: acct(5),
        amount: 10,
        destination_chain: DEST,
        recipient: acct(8),
    });
    assert_eq!(r, Err(AdapterError::InvalidDestination));
}

#[test]
fn lock_insufficient_funds_fails_without_effect() {
    let user = acct(5);
    let mut a = setup(user, 50);
    let r = a.lock_tokens(LockTokens {
        user,
        amount: 100,
        destination_chain: DEST,
        recipient: acct(8),
    });
    assert_eq!(r, Err(AdapterError::InsufficientFunds));
    assert_eq!(a.balance_of(user), 50);
    assert_eq!(a.vault_balance, 0);
}

#[test]
fn unlock_round_trip_restores_balances() {
    let user = acct(5);
    let mut a = setup(user, 500);
    let msg = a
        .lock_tokens(LockTokens {
            user,
            amount: 100,
            destination_chain: DEST,
            recipient: acct(8),
        })
        .unwrap();
    assert_eq!(a.unlock_tokens(msg.nonce, user, 100), Ok(()));
    assert_eq!(a.balance_of(user), 500);
    assert_eq!(a.vault_balance, 0);
    assert_eq!(a.records[0].state, LockState::Unlocked);
}

#[test]
fn unlock_replayed_nonce_fails_without_effect() {
    let user = acct(5);
    let mut a = setup(user, 500);
    let msg = a
        .lock_tokens(LockTokens {
            user,
            amount: 100,
            destination_chain: DEST,
            recipient: acct(8),
        })
        .unwrap();
    assert_eq!(a.unlock_tokens(msg.nonce, acct(8), 100), Ok(()));
    let r = a.unlock_tokens(msg.nonce, acct(8), 100);
    assert_eq!(r, Err(AdapterError::ReplayedMessage));
    assert_eq!(a.balance_of(acct(8)), 100);
    assert_eq!(a.balance_of(user), 400);
    assert_eq!(a.vault_balance, 0);
}

#[test]
fn unlock_unknown_nonce_fails() {
    let user = acct(5);
    let mut a = setup(user, 500);
    let r = a.unlock_tokens(17, acct(8), 10);
    assert_eq!(r, Err(AdapterError::ReplayedMessage));
    assert_eq!(a.balance_of(user), 500);
    assert_eq!(a.vault_balance, 0);
}

#[test]
fn unlock_insufficient_escrow_fails_without_effect() {
    let user = acct(5);
    let mut a = setup(user, 500);
    let msg = a
        .lock_tokens(LockTokens {
            user,
            amount: 100,
            destination_chain: DEST,
            recipient: acct(8),
        })
        .unwrap();
    let r = a.unlock_tokens(msg.nonce, acct(8), 150);
    assert_eq!(r, Err(AdapterError::InsufficientEscrow));
    assert_eq!(a.vault_balance, 100);
    assert_eq!(a.balance_of(acct(8)), 0);
    assert_eq!(a.records[0].state, LockState::Locked);
}

#[test]
fn fund_refuses_custody_overflow() {
    let mut a = Adapter::new();
    assert!(a.fund(acct(5), u64::MAX));
    assert!(!a.fund(acct(6), 1));
    assert_eq!(a.balance_of(acct(6)), 0);
    assert_eq!(a.balance_of(acct(5)), u64::MAX);
}

#[test]
fn scenario_lock_unlock_replay() {
    // Store initialized with admin 1. User 5 locks 100 tokens for
    // destination chain 2, addressed to recipient 8; the vault holds 100 and
    // the user's balance drops by 100. Unlocking the emitted nonce for 100
    // empties the vault and credits the recipient; a second unlock of the
    // same nonce is rejected as a replay.
    let admin = acct(1);
    let user = acct(5);
    let recipient = acct(8);
    let mut a = Adapter::new();
    a.initialize(Initialize {
        admin,
        bridge_config: config(),
    })
    .unwrap();
    assert!(a.fund(user, 250));
    let msg = a
        .lock_tokens(LockTokens {
            user,
            amount: 100,
            destination_chain: DEST,
            recipient,
        })
        .unwrap();
    assert_eq!(a.vault_balance, 100);
    assert_eq!(a.balance_of(user), 150);
    assert_eq!(msg.amount, 100);
    assert_eq!(msg.recipient, recipient);

    assert_eq!(a.unlock_tokens(msg.nonce, recipient, 100), Ok(()));
    assert_eq!(a.vault_balance, 0);
    assert_eq!(a.balance_of(recipient), 100);

    assert_eq!(
        a.unlock_tokens(msg.nonce, recipient, 100),
        Err(AdapterError::ReplayedMessage)
    );
    assert_eq!(a.vault_balance, 0);
    assert_eq!(a.balance_of(recipient), 100);
    assert_eq!(a.balance_of(user), 150);
}
