//! One ledger row: the owning address, the monotonic nonce, and the
//! per-token balances.

use vstd::prelude::*;
use vstd::hash_map::HashMapWithView;

verus! {

/// A mutable ledger row. A token with no entry in `balances` has balance
/// zero; [`Account::balance_of`] collapses the two cases.
pub struct Account {
    pub address: Vec<u8>,
    pub nonce: u32,
    pub balances: HashMapWithView<u32, u128>,
}

impl Account {
    /// The balance the account holds of `token`; zero when no entry exists.
    pub open spec fn balance_of(&self, token: u32) -> u128 {
        if self.balances@.contains_key(token) {
            self.balances@[token]
        } else {
            0
        }
    }

    /// Creates an account owned by `address`, with nonce zero and no
    /// balances.
    pub fn new(address: Vec<u8>) -> (r: Account)
        ensures
            r.address@ == address@,
            r.nonce == 0,
            forall|t: u32| r.balance_of(t) == 0,
    {
        Account { address, nonce: 0, balances: HashMapWithView::new() }
    }

    /// Reads the balance of `token`.
    pub fn get_balance(&self, token: u32) -> (r: u128)
        ensures
            r == self.balance_of(token),
    {
        match self.balances.get(&token) {
            Some(b) => *b,
            None => 0,
        }
    }

    /// Overwrites the balance of `token`; every other token keeps its
    /// balance, and address and nonce are untouched.
    pub fn set_balance(&mut self, token: u32, amount: u128)
        ensures
            final(self).balance_of(token) == amount,
            forall|t: u32| t != token ==> final(self).balance_of(t) == old(self).balance_of(t),
            final(self).address == old(self).address,
            final(self).nonce == old(self).nonce,
    {
        self.balances.insert(token, amount);
    }

    /// Subtracts `amount` from the balance of `token`, which must cover it.
    pub fn sub_balance(&mut self, token: u32, amount: u128)
        requires
            amount <= old(self).balance_of(token),
        ensures
            final(self).balance_of(token) == old(self).balance_of(token) - amount,
            forall|t: u32| t != token ==> final(self).balance_of(t) == old(self).balance_of(t),
            final(self).address == old(self).address,
            final(self).nonce == old(self).nonce,
    {
        let current = self.get_balance(token);
        self.balances.insert(token, current - amount);
    }
}

} // verus!
