//! The typed priority operations, the full-exit record, and the audit
//! records a transition emits.
//!
//! Addresses are 20-byte strings and hashes 32-byte strings, both held as
//! plain byte vectors; balances are unsigned 128-bit integers, the width
//! the wire format carries.

use vstd::prelude::*;

verus! {

/// Pubdata opcode of a deposit.
pub const DEPOSIT_OP_CODE: u8 = 1;

/// Pubdata opcode of a full exit.
pub const FULL_EXIT_OP_CODE: u8 = 6;

/// A request to drain the entire balance of `token` from `account_id`,
/// provided the account's recorded owner matches `eth_address`.
#[derive(Debug)]
pub struct FullExit {
    pub account_id: u32,
    pub eth_address: Vec<u8>,
    pub token: u32,
}

/// Spec-level image of a [`FullExit`].
pub ghost struct FullExitV {
    pub account_id: u32,
    pub eth_address: Seq<u8>,
    pub token: u32,
}

impl View for FullExit {
    type V = FullExitV;

    open spec fn view(&self) -> FullExitV {
        FullExitV { account_id: self.account_id, eth_address: self.eth_address@, token: self.token }
    }
}

/// A request to credit `amount` of `token` to the account owned by `to`.
#[derive(Debug)]
pub struct Deposit {
    pub from: Vec<u8>,
    pub token: u32,
    pub amount: u128,
    pub to: Vec<u8>,
}

/// Spec-level image of a [`Deposit`].
pub ghost struct DepositV {
    pub from: Seq<u8>,
    pub token: u32,
    pub amount: u128,
    pub to: Seq<u8>,
}

impl View for Deposit {
    open spec fn view(&self) -> DepositV {
        DepositV { from: self.from@, token: self.token, amount: self.amount, to: self.to@ }
    }

    type V = DepositV;
}

/// The payload of a priority operation.
#[derive(Debug)]
pub enum ZkSyncPriorityOp {
    Deposit(Deposit),
    FullExit(FullExit),
}

/// Spec-level image of a [`ZkSyncPriorityOp`].
pub ghost enum ZkSyncPriorityOpV {
    Deposit(DepositV),
    FullExit(FullExitV),
}

impl View for ZkSyncPriorityOp {
    type V = ZkSyncPriorityOpV;

    open spec fn view(&self) -> ZkSyncPriorityOpV {
        match self {
            ZkSyncPriorityOp::Deposit(d) => ZkSyncPriorityOpV::Deposit(d@),
            ZkSyncPriorityOp::FullExit(f) => ZkSyncPriorityOpV::FullExit(f@),
        }
    }
}

/// An L1-originated request: the payload together with its contract-assigned
/// serial id, the transaction that carried it, and its processing deadline.
#[derive(Debug)]
pub struct PriorityOp {
    pub serial_id: u64,
    pub data: ZkSyncPriorityOp,
    pub deadline_block: u64,
    pub eth_hash: Vec<u8>,
    pub eth_block: u64,
}

/// Spec-level image of a [`PriorityOp`].
pub ghost struct PriorityOpV {
    pub serial_id: u64,
    pub data: ZkSyncPriorityOpV,
    pub deadline_block: u64,
    pub eth_hash: Seq<u8>,
    pub eth_block: u64,
}

impl View for PriorityOp {
    type V = PriorityOpV;

    open spec fn view(&self) -> PriorityOpV {
        PriorityOpV {
            serial_id: self.serial_id,
            data: self.data@,
            deadline_block: self.deadline_block,
            eth_hash: self.eth_hash@,
            eth_block: self.eth_block,
        }
    }
}

/// The canonical record of one applied full exit: the original request, the
/// amount actually withdrawn (absent when nothing moved) and, for a
/// non-fungible token, the registry metadata.
#[derive(Debug)]
pub struct FullExitOp {
    pub priority_op: FullExit,
    pub withdraw_amount: Option<u128>,
    pub creator_account_id: Option<u32>,
    pub serial_id: Option<u32>,
    pub content_hash: Option<Vec<u8>>,
}

/// An append-only delta record of one balance change; the audit trail
/// consumed by downstream committers.
#[derive(Debug)]
pub enum AccountUpdate {
    UpdateBalance { old_nonce: u32, new_nonce: u32, balance_update: (u32, u128, u128) },
}

/// A fee collected by an operation; always absent for full exits.
#[derive(Debug)]
pub struct CollectedFee {
    pub token: u32,
    pub amount: u128,
}

/// The executed-operation record appended to a block's operation log.
#[derive(Debug)]
pub enum ZkSyncOp {
    FullExit(FullExitOp),
}

/// Outcome of applying one priority operation to the ledger.
#[derive(Debug)]
pub struct OpSuccess {
    pub fee: Option<CollectedFee>,
    pub updates: Vec<(u32, AccountUpdate)>,
    pub executed_op: ZkSyncOp,
}

/// Error of the transition layer: the ledger and the priority-operation
/// stream have diverged.
#[derive(Debug, PartialEq, Eq, Structural, Clone, Copy)]
pub enum TransitionError {
    /// An exit names a non-fungible token the registry has no record of.
    LedgerInconsistency,
}

} // verus!
