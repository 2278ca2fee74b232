//! Verified core of an L1 priority-operation watcher and the full-exit
//! state transition of an L2 rollup ledger.
//!
//! The watcher side turns raw settlement-chain event logs into typed
//! priority operations; the ledger side applies one full exit to the
//! in-memory account state, draining a token balance to exactly zero or
//! doing nothing at all.

use vstd::prelude::*;

pub mod byteops;
pub mod ops;
pub mod account;
pub mod state;
pub mod eth_watch;

verus! {

/// Token ids at or above this value denote non-fungible assets; below it,
/// ordinary fungible tokens.
pub const MIN_NFT_TOKEN_ID: u32 = 65536;

/// The largest token id a priority operation may carry; the contract
/// enforces this bound before emitting an event.
pub const MAX_TOKEN_ID: u32 = 2147483645;

/// Whether a token id falls in the non-fungible range.
pub open spec fn is_nft_token(token: u32) -> bool {
    token >= MIN_NFT_TOKEN_ID
}

/// Exec mirror of `is_nft_token`.
pub fn token_is_nft(token: u32) -> (r: bool)
    ensures
        r == is_nft_token(token),
{
    token >= MIN_NFT_TOKEN_ID
}

} // verus!
