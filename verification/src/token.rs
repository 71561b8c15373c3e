//! A fungible-token ledger: account balances and the transfer the
//! distributor pays rewards with.
//!
//! The distributor consumes a token-transfer service; this module is that
//! service's ledger stated over plain values, so that the payout leg of a
//! distribution is verified together with the claim bookkeeping. A transfer
//! either moves the whole amount or fails and moves nothing.

use std::collections::HashMap;
use vstd::prelude::*;

use crate::Error;

verus! {

broadcast use vstd::std_specs::hash::group_hash_axioms;

/// The balance an account holds under a balance map; absent accounts hold 0.
pub open spec fn spec_balance(balances: Map<u64, i128>, who: u64) -> i128 {
    if balances.contains_key(who) {
        balances[who]
    } else {
        0
    }
}

/// Whether a transfer of `amount` from `from` to `to` can go through on
/// the balances `b`: the amount is not negative, the sender covers it, and
/// the recipient's balance cannot overflow.
pub open spec fn transfer_ok(b: Map<u64, i128>, from: u64, to: u64, amount: i128) -> bool {
    &&& 0 <= amount
    &&& amount <= spec_balance(b, from)
    &&& (from == to || spec_balance(b, to) + amount <= i128::MAX)
}

/// The balances after a transfer, paired with its outcome. A transfer that
/// cannot go through leaves the balances exactly as they were; one between
/// an account and itself goes through and moves nothing.
pub open spec fn spec_transfer(b: Map<u64, i128>, from: u64, to: u64, amount: i128) -> (
    Map<u64, i128>,
    Result<(), Error>,
) {
    if transfer_ok(b, from, to, amount) {
        if from == to {
            (b, Ok(()))
        } else {
            (
                b.insert(from, (spec_balance(b, from) - amount) as i128).insert(
                    to,
                    (spec_balance(b, to) + amount) as i128,
                ),
                Ok(()),
            )
        }
    } else {
        (b, Err(Error::TransferFailed))
    }
}

/// The ledger of one fungible token, identified by `id`.
///
/// Its view is the balance map; accounts it has never touched hold 0.
pub struct TokenLedger {
    id: u64,
    balances: HashMap<u64, i128>,
}

impl View for TokenLedger {
    type V = Map<u64, i128>;

    closed spec fn view(&self) -> Map<u64, i128> {
        self.balances@
    }
}

impl TokenLedger {
    /// The identifier of the token this ledger keeps.
    pub closed spec fn spec_id(&self) -> u64 {
        self.id
    }

    /// An empty ledger for the token identified by `id`.
    pub fn new(id: u64) -> (ledger: TokenLedger)
        ensures
            ledger.spec_id() == id,
            ledger@ == Map::<u64, i128>::empty(),
    {
        TokenLedger { id, balances: HashMap::new() }
    }

    /// The identifier of the token this ledger keeps.
    pub fn id(&self) -> (id: u64)
        ensures
            id == self.spec_id(),
    {
        self.id
    }

    /// The balance `who` holds; 0 for an account never touched.
    pub fn balance_of(&self, who: u64) -> (balance: i128)
        ensures
            balance == spec_balance(self@, who),
    {
        match self.balances.get(&who) {
            Some(balance) => *balance,
            None => 0,
        }
    }

    /// Creates `amount` new units on `to`'s balance.
    pub fn mint(&mut self, to: u64, amount: i128)
        requires
            0 <= amount,
            spec_balance(old(self)@, to) + amount <= i128::MAX,
        ensures
            final(self).spec_id() == old(self).spec_id(),
            final(self)@ == old(self)@.insert(
                to,
                (spec_balance(old(self)@, to) + amount) as i128,
            ),
    {
        let balance = self.balance_of(to);
        self.balances.insert(to, balance + amount);
    }

    /// Moves `amount` from `from` to `to`.
    ///
    /// Succeeds exactly when the transfer can go through (`transfer_ok`);
    /// on failure the balances are untouched. Consent of `from` is the
    /// caller's duty: the distributor demands it before it calls here.
    pub fn transfer(&mut self, from: u64, to: u64, amount: i128) -> (r: Result<(), Error>)
        ensures
            final(self).spec_id() == old(self).spec_id(),
            ({
                let (b2, r2) = spec_transfer(old(self)@, from, to, amount);
                final(self)@ == b2 && r == r2
            }),
            r is Ok <==> transfer_ok(old(self)@, from, to, amount),
            r is Err ==> final(self)@ == old(self)@,
    {
        if amount < 0 {
            return Err(Error::TransferFailed);
        }
        let from_balance = self.balance_of(from);
        if from_balance < amount {
            return Err(Error::TransferFailed);
        }
        if from == to {
            return Ok(());
        }
        let to_balance = self.balance_of(to);
        if to_balance > i128::MAX - amount {
            return Err(Error::TransferFailed);
        }
        self.balances.insert(from, from_balance - amount);
        self.balances.insert(to, to_balance + amount);
        Ok(())
    }
}

} // verus!
