use priority_ledger::account::Account;
use priority_ledger::ops::{AccountUpdate, FullExit, TransitionError, ZkSyncOp};
use priority_ledger::state::{ZkSyncState, NFT};
use priority_ledger::MIN_NFT_TOKEN_ID;

fn state_with_account(id: u32, address: Vec<u8>, token: u32, balance: u128) -> ZkSyncState {
    let mut state = ZkSyncState::new();
    let mut account = Account::new(address);
    account.nonce = 42;
    account.set_balance(token, balance);
    state.insert_account(id, account);
    state
}

#[test]
fn full_exit_matching_account_drains_balance() {
    // Account 7, address 0xAA.., token 5, balance 1000.
    let mut state = state_with_account(7, vec![0xAA; 20], 5, 1000);
    let full_exit = FullExit { account_id: 7, eth_address: vec![0xAA; 20], token: 5 };

    let op = state.create_op(full_exit).unwrap();
    assert_eq!(op.withdraw_amount, Some(1000));
    assert_eq!(op.creator_account_id, None);
    assert_eq!(op.serial_id, None);
    assert_eq!(op.content_hash, None);

    let (fee, updates) = state.apply_op(&op).unwrap();
    assert!(fee.is_none());
    assert_eq!(updates.len(), 1);
    let (id, AccountUpdate::UpdateBalance { old_nonce, new_nonce, balance_update }) = &updates[0];
    assert_eq!(*id, 7);
    assert_eq!(*old_nonce, 42);
    assert_eq!(*new_nonce, 42);
    assert_eq!(*balance_update, (5, 1000, 0));

    let account = state.get_account(7).unwrap();
    assert_eq!(account.get_balance(5), 0);
    assert_eq!(account.nonce, 42);
    assert_eq!(account.address, vec![0xAA; 20]);
}

#[test]
fn full_exit_address_mismatch_is_noop() {
    // Account 7 owned by 0xAA.., claimed by 0xBB..: nothing moves.
    let mut state = state_with_account(7, vec![0xAA; 20], 5, 1000);
    let full_exit = FullExit { account_id: 7, eth_address: vec![0xBB; 20], token: 5 };

    let op = state.create_op(full_exit).unwrap();
    assert_eq!(op.withdraw_amount, None);

    let (fee, updates) = state.apply_op(&op).unwrap();
    assert!(fee.is_none());
    assert!(updates.is_empty());

    let account = state.get_account(7).unwrap();
    assert_eq!(account.get_balance(5), 1000);
    assert_eq!(account.nonce, 42);
}

#[test]
fn full_exit_missing_account_is_noop() {
    let mut state = ZkSyncState::new();
    let full_exit = FullExit { account_id: 9, eth_address: vec![0xAA; 20], token: 5 };

    let op = state.create_op(full_exit).unwrap();
    assert_eq!(op.withdraw_amount, None);

    let (fee, updates) = state.apply_op(&op).unwrap();
    assert!(fee.is_none());
    assert!(updates.is_empty());
    assert!(state.get_account(9).is_none());
}

#[test]
fn full_exit_zero_balance_still_emits_one_update() {
    // A matching owner with a zero balance still produces a (0 -> 0) record.
    let mut state = state_with_account(7, vec![0xAA; 20], 5, 0);
    let full_exit = FullExit { account_id: 7, eth_address: vec![0xAA; 20], token: 5 };

    let op = state.create_op(full_exit).unwrap();
    assert_eq!(op.withdraw_amount, Some(0));

    let (_, updates) = state.apply_op(&op).unwrap();
    assert_eq!(updates.len(), 1);
    let (_, AccountUpdate::UpdateBalance { balance_update, .. }) = &updates[0];
    assert_eq!(*balance_update, (5, 0, 0));
}

#[test]
fn full_exit_leaves_other_balances_alone() {
    let mut state = state_with_account(7, vec![0xAA; 20], 5, 1000);
    {
        let account = state.get_account(7).unwrap();
        assert_eq!(account.get_balance(8), 0);
    }
    let mut account = Account::new(vec![0xAA; 20]);
    account.set_balance(5, 1000);
    account.set_balance(8, 77);
    state.insert_account(7, account);

    let full_exit = FullExit { account_id: 7, eth_address: vec![0xAA; 20], token: 5 };
    let op = state.create_op(full_exit).unwrap();
    state.apply_op(&op).unwrap();

    let account = state.get_account(7).unwrap();
    assert_eq!(account.get_balance(5), 0);
    assert_eq!(account.get_balance(8), 77);
}

#[test]
fn nft_full_exit_carries_registry_metadata() {
    let token = MIN_NFT_TOKEN_ID + 5;
    let mut state = state_with_account(7, vec![0xAA; 20], token, 1);
    state.insert_nft(token, NFT { creator_id: 3, serial_id: 11, content_hash: vec![0xCD; 32] });

    let full_exit = FullExit { account_id: 7, eth_address: vec![0xAA; 20], token };
    let op = state.create_op(full_exit).unwrap();
    assert_eq!(op.withdraw_amount, Some(1));
    assert_eq!(op.creator_account_id, Some(3));
    assert_eq!(op.serial_id, Some(11));
    assert_eq!(op.content_hash, Some(vec![0xCD; 32]));
}

#[test]
fn nft_full_exit_without_record_reports_inconsistency() {
    let token = MIN_NFT_TOKEN_ID;
    let mut state = state_with_account(7, vec![0xAA; 20], token, 1);

    let full_exit = FullExit { account_id: 7, eth_address: vec![0xAA; 20], token };
    assert_eq!(state.create_op(full_exit).unwrap_err(), TransitionError::LedgerInconsistency);

    let full_exit = FullExit { account_id: 7, eth_address: vec![0xAA; 20], token };
    assert_eq!(state.apply_tx(full_exit).unwrap_err(), TransitionError::LedgerInconsistency);
    assert_eq!(state.get_account(7).unwrap().get_balance(token), 1);
}

#[test]
fn apply_tx_executed_op_carries_nft_metadata() {
    let token = MIN_NFT_TOKEN_ID + 2;
    let mut state = state_with_account(7, vec![0xAA; 20], token, 4);
    state.insert_nft(token, NFT { creator_id: 3, serial_id: 11, content_hash: vec![0xCD; 32] });

    let full_exit = FullExit { account_id: 7, eth_address: vec![0xAA; 20], token };
    let success = state.apply_tx(full_exit).unwrap();
    let ZkSyncOp::FullExit(op) = &success.executed_op;
    assert_eq!(op.withdraw_amount, Some(4));
    assert_eq!(op.creator_account_id, Some(3));
    assert_eq!(op.serial_id, Some(11));
    assert_eq!(op.content_hash, Some(vec![0xCD; 32]));
}

#[test]
fn apply_tx_wraps_the_executed_op() {
    let mut state = state_with_account(7, vec![0xAA; 20], 5, 1000);
    let full_exit = FullExit { account_id: 7, eth_address: vec![0xAA; 20], token: 5 };

    let success = state.apply_tx(full_exit).unwrap();
    assert!(success.fee.is_none());
    assert_eq!(success.updates.len(), 1);
    let ZkSyncOp::FullExit(op) = &success.executed_op;
    assert_eq!(op.priority_op.account_id, 7);
    assert_eq!(op.priority_op.token, 5);
    assert_eq!(op.withdraw_amount, Some(1000));
    assert_eq!(state.get_account(7).unwrap().get_balance(5), 0);
}
