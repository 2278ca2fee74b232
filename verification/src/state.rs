//! The account ledger and the full-exit state transition.
//!
//! A full exit either drains one token balance to exactly zero and emits
//! exactly one audit record, or — when the claimed owner does not match the
//! ledger's recorded owner — moves nothing at all. No intermediate balance
//! is possible, and the nonce is never altered.

use vstd::prelude::*;
use vstd::hash_map::HashMapWithView;
use crate::account::Account;
use crate::byteops::{bytes_eq, copy_bytes};
use crate::ops::{
    AccountUpdate, CollectedFee, FullExit, FullExitOp, OpSuccess, TransitionError, ZkSyncOp,
};
use crate::{is_nft_token, token_is_nft, MAX_TOKEN_ID};

verus! {

/// Registry record of a non-fungible token: who minted it, its mint serial
/// number, and the hash of its content.
pub struct NFT {
    pub creator_id: u32,
    pub serial_id: u32,
    pub content_hash: Vec<u8>,
}

/// The in-memory rollup ledger: account rows keyed by account id, and the
/// registry of non-fungible tokens keyed by token id.
pub struct ZkSyncState {
    pub accounts: HashMapWithView<u32, Account>,
    pub nfts: HashMapWithView<u32, NFT>,
}

/// One audit record describes the exit: account `id` had `amount` of
/// `token`, now has zero, and its nonce did not move.
pub open spec fn is_full_exit_update(
    upd: (u32, AccountUpdate),
    id: u32,
    token: u32,
    nonce: u32,
    amount: u128,
) -> bool {
    &&& upd.0 == id
    &&& match upd.1 {
        AccountUpdate::UpdateBalance { old_nonce, new_nonce, balance_update } => {
            &&& old_nonce == nonce
            &&& new_nonce == nonce
            &&& balance_update == (token, amount, 0u128)
        },
    }
}

/// How a drained ledger relates to the ledger before the exit: account
/// `id`'s balance of `token` is now zero; its other balances, its address,
/// its nonce, every other account and the whole registry are untouched.
pub open spec fn is_drained_ledger(pre: ZkSyncState, post: ZkSyncState, id: u32, token: u32) -> bool {
    &&& post.nfts@ == pre.nfts@
    &&& post.accounts@.dom() == pre.accounts@.dom()
    &&& pre.accounts@.contains_key(id)
    &&& post.accounts@.contains_key(id)
    &&& forall|j: u32|
        j != id && pre.accounts@.contains_key(j) ==> post.accounts@[j] == pre.accounts@[j]
    &&& post.accounts@[id].address == pre.accounts@[id].address
    &&& post.accounts@[id].nonce == pre.accounts@[id].nonce
    &&& post.accounts@[id].balance_of(token) == 0
    &&& forall|t: u32|
        t != token ==> post.accounts@[id].balance_of(t) == pre.accounts@[id].balance_of(t)
}

impl ZkSyncState {
    /// The account at `id`, if the ledger has one.
    pub open spec fn spec_get_account(&self, id: u32) -> Option<Account> {
        if self.accounts@.contains_key(id) {
            Some(self.accounts@[id])
        } else {
            None
        }
    }

    /// The amount a full exit withdraws: the account's whole balance of the
    /// named token when the account exists and its recorded owner matches
    /// the claimed address, and nothing otherwise.
    pub open spec fn spec_withdraw_amount(&self, full_exit: FullExit) -> Option<u128> {
        if !self.accounts@.contains_key(full_exit.account_id) {
            None
        } else if self.accounts@[full_exit.account_id].address@ != full_exit.eth_address@ {
            None
        } else {
            Some(self.accounts@[full_exit.account_id].balance_of(full_exit.token))
        }
    }

    /// Whether `create_op` must report a diverged ledger: the exit names a
    /// non-fungible token the registry has no record of.
    pub open spec fn spec_nft_record_missing(&self, full_exit: FullExit) -> bool {
        is_nft_token(full_exit.token) && !self.nfts@.contains_key(full_exit.token)
    }

    /// A full-exit record agrees with this ledger when its withdrawal
    /// amount, if present, equals the named account's current balance of
    /// the named token. Every record `create_op` yields agrees with the
    /// ledger it was computed from.
    pub open spec fn spec_op_consistent(&self, op: FullExitOp) -> bool {
        match op.withdraw_amount {
            Option::Some(a) => {
                &&& self.accounts@.contains_key(op.priority_op.account_id)
                &&& self.accounts@[op.priority_op.account_id].balance_of(op.priority_op.token) == a
            },
            Option::None => true,
        }
    }

    /// Creates an empty ledger.
    pub fn new() -> (r: ZkSyncState)
        ensures
            r.accounts@ == Map::<u32, Account>::empty(),
            r.nfts@ == Map::<u32, NFT>::empty(),
    {
        ZkSyncState { accounts: HashMapWithView::new(), nfts: HashMapWithView::new() }
    }

    /// The account at `id`, if the ledger has one.
    pub fn get_account(&self, id: u32) -> (r: Option<&Account>)
        ensures
            match r {
                Some(a) => self.spec_get_account(id) == Some(*a),
                None => self.spec_get_account(id) is None,
            },
    {
        self.accounts.get(&id)
    }

    /// Writes the account row at `id`, replacing any previous row.
    pub fn insert_account(&mut self, id: u32, account: Account)
        ensures
            final(self).accounts@ == old(self).accounts@.insert(id, account),
            final(self).nfts@ == old(self).nfts@,
    {
        self.accounts.insert(id, account);
    }

    /// Writes the registry record of token `id`.
    pub fn insert_nft(&mut self, id: u32, nft: NFT)
        ensures
            final(self).nfts@ == old(self).nfts@.insert(id, nft),
            final(self).accounts@ == old(self).accounts@,
    {
        self.nfts.insert(id, nft);
    }

    /// Computes the canonical record of one full exit without touching the
    /// ledger: the withdrawal amount per [`Self::spec_withdraw_amount`],
    /// and, for a non-fungible token, the registry metadata — failing when
    /// that record is missing, which signals a diverged ledger.
    pub fn create_op(&self, priority_op: FullExit) -> (r: Result<FullExitOp, TransitionError>)
        requires
            priority_op.token <= MAX_TOKEN_ID,
        ensures
            r is Err <==> self.spec_nft_record_missing(priority_op),
            r matches Err(e) ==> e == TransitionError::LedgerInconsistency,
            r matches Ok(op) ==> {
                &&& op.priority_op == priority_op
                &&& op.withdraw_amount == self.spec_withdraw_amount(priority_op)
                &&& self.spec_op_consistent(op)
                &&& if is_nft_token(priority_op.token) {
                    &&& self.nfts@.contains_key(priority_op.token)
                    &&& op.creator_account_id == Some(self.nfts@[priority_op.token].creator_id)
                    &&& op.serial_id == Some(self.nfts@[priority_op.token].serial_id)
                    &&& match op.content_hash {
                        Option::Some(h) => h@ == self.nfts@[priority_op.token].content_hash@,
                        Option::None => false,
                    }
                } else {
                    &&& op.creator_account_id is None
                    &&& op.serial_id is None
                    &&& op.content_hash is None
                }
            },
    {
        let account_balance: Option<u128> = match self.get_account(priority_op.account_id) {
            Some(account) => if bytes_eq(&account.address, &priority_op.eth_address) {
                Some(account.get_balance(priority_op.token))
            } else {
                None
            },
            None => None,
        };
        if token_is_nft(priority_op.token) {
            match self.nfts.get(&priority_op.token) {
                Some(nft) => Ok(
                    FullExitOp {
                        creator_account_id: Some(nft.creator_id),
                        serial_id: Some(nft.serial_id),
                        content_hash: Some(copy_bytes(&nft.content_hash)),
                        priority_op,
                        withdraw_amount: account_balance,
                    },
                ),
                None => Err(TransitionError::LedgerInconsistency),
            }
        } else {
            Ok(
                FullExitOp {
                    priority_op,
                    withdraw_amount: account_balance,
                    creator_account_id: None,
                    serial_id: None,
                    content_hash: None,
                },
            )
        }
    }

    /// Applies one full-exit record to the ledger. An absent withdrawal
    /// amount is a deliberate no-op: no account is touched and no audit
    /// record is emitted. Otherwise the named balance drops to exactly zero
    /// and exactly one audit record describes the change. No fee is ever
    /// collected.
    ///
    /// The record must agree with the ledger, as any record `create_op`
    /// yields against this ledger does; a disagreement would mean a
    /// financial-integrity breach, which must stop the caller rather than
    /// be persisted.
    pub fn apply_op(&mut self, op: &FullExitOp) -> (r: Result<
        (Option<CollectedFee>, Vec<(u32, AccountUpdate)>),
        TransitionError,
    >)
        requires
            old(self).spec_op_consistent(*op),
        ensures
            r is Ok,
            r matches Ok((fee, updates)) ==> {
                &&& fee is None
                &&& match op.withdraw_amount {
                    Option::None => updates@.len() == 0 && *final(self) == *old(self),
                    Option::Some(a) => {
                        let id = op.priority_op.account_id;
                        let token = op.priority_op.token;
                        &&& updates@.len() == 1
                        &&& is_full_exit_update(
                            updates@[0],
                            id,
                            token,
                            old(self).accounts@[id].nonce,
                            a,
                        )
                        &&& is_drained_ledger(*old(self), *final(self), id, token)
                    },
                }
            },
    {
        let updates: Vec<(u32, AccountUpdate)> = Vec::new();
        let amount: u128 = match &op.withdraw_amount {
            Some(a) => *a,
            None => {
                return Ok((None, updates));
            },
        };
        let mut updates = updates;
        let account_id = op.priority_op.account_id;
        let mut account = self.accounts.remove(&account_id).unwrap();

        let old_balance = account.get_balance(op.priority_op.token);
        let old_nonce = account.nonce;

        account.sub_balance(op.priority_op.token, amount);

        let new_balance = account.get_balance(op.priority_op.token);
        // A nonzero balance after a full drain would be a
        // financial-integrity breach; here it is proved unreachable rather
        // than caught at run time.
        assert(new_balance == 0);
        let new_nonce = account.nonce;

        self.accounts.insert(account_id, account);
        updates.push(
            (
                account_id,
                AccountUpdate::UpdateBalance {
                    balance_update: (op.priority_op.token, old_balance, new_balance),
                    old_nonce,
                    new_nonce,
                },
            ),
        );

        proof {
            assert(self.accounts@.dom() =~= old(self).accounts@.dom());
        }
        let fee: Option<CollectedFee> = None;
        Ok((fee, updates))
    }

    /// Creates the full-exit record for `priority_op` and applies it,
    /// wrapping the outcome in the executed-operation record for the
    /// block's operation log. Fails exactly when `create_op` does, leaving
    /// the ledger untouched.
    pub fn apply_tx(&mut self, priority_op: FullExit) -> (r: Result<OpSuccess, TransitionError>)
        requires
            priority_op.token <= MAX_TOKEN_ID,
        ensures
            r is Err <==> old(self).spec_nft_record_missing(priority_op),
            r matches Err(e) ==> e == TransitionError::LedgerInconsistency && *final(self) == *old(self),
            r matches Ok(s) ==> {
                &&& s.fee is None
                &&& match s.executed_op {
                    ZkSyncOp::FullExit(op) => {
                        &&& op.priority_op == priority_op
                        &&& op.withdraw_amount == old(self).spec_withdraw_amount(priority_op)
                        &&& if is_nft_token(priority_op.token) {
                            &&& old(self).nfts@.contains_key(priority_op.token)
                            &&& op.creator_account_id == Some(
                                old(self).nfts@[priority_op.token].creator_id,
                            )
                            &&& op.serial_id == Some(old(self).nfts@[priority_op.token].serial_id)
                            &&& match op.content_hash {
                                Option::Some(h) => h@ == old(
                                    self,
                                ).nfts@[priority_op.token].content_hash@,
                                Option::None => false,
                            }
                        } else {
                            &&& op.creator_account_id is None
                            &&& op.serial_id is None
                            &&& op.content_hash is None
                        }
                    },
                }
                &&& match old(self).spec_withdraw_amount(priority_op) {
                    Option::None => s.updates@.len() == 0 && *final(self) == *old(self),
                    Option::Some(a) => {
                        let id = priority_op.account_id;
                        let token = priority_op.token;
                        &&& s.updates@.len() == 1
                        &&& is_full_exit_update(
                            s.updates@[0],
                            id,
                            token,
                            old(self).accounts@[id].nonce,
                            a,
                        )
                        &&& is_drained_ledger(*old(self), *final(self), id, token)
                    },
                }
            },
    {
        let op = match self.create_op(priority_op) {
            Ok(op) => op,
            Err(e) => {
                return Err(e);
            },
        };

        let (fee, updates) = match self.apply_op(&op) {
            Ok(r) => r,
            Err(e) => {
                return Err(e);
            },
        };
        Ok(OpSuccess { fee, updates, executed_op: ZkSyncOp::FullExit(op) })
    }
}

/// A full exit naming an account id the ledger has no row for carries no
/// withdrawal amount — and an absent amount makes `apply_op` leave every
/// account untouched and emit no audit record.
pub proof fn lemma_missing_account_no_withdrawal(state: ZkSyncState, full_exit: FullExit)
    requires
        !state.accounts@.contains_key(full_exit.account_id),
    ensures
        state.spec_withdraw_amount(full_exit) is None,
{
}

/// A full exit whose claimed owner differs from the account's recorded
/// owner carries no withdrawal amount — the ledger is authoritative for
/// current ownership, whatever the settlement chain once verified.
pub proof fn lemma_address_mismatch_no_withdrawal(state: ZkSyncState, full_exit: FullExit)
    requires
        state.accounts@.contains_key(full_exit.account_id),
        state.accounts@[full_exit.account_id].address@ != full_exit.eth_address@,
    ensures
        state.spec_withdraw_amount(full_exit) is None,
{
}

/// A full exit whose claimed owner matches the recorded owner withdraws the
/// account's entire current balance of the named token — `apply_op` then
/// drains that balance to exactly zero and leaves the nonce unchanged.
pub proof fn lemma_matching_account_full_withdrawal(state: ZkSyncState, full_exit: FullExit)
    requires
        state.accounts@.contains_key(full_exit.account_id),
        state.accounts@[full_exit.account_id].address@ == full_exit.eth_address@,
    ensures
        state.spec_withdraw_amount(full_exit) == Some(
            state.accounts@[full_exit.account_id].balance_of(full_exit.token),
        ),
{
}

} // verus!
