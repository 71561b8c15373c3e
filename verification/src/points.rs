//! The internal-ledger variant of the idempotent reward core: instead of
//! paying an external token, a claim accrues points on an in-state balance
//! that is clamped to a fixed cap.
//!
//! The claim bookkeeping is the same as the distributor's — one payout per
//! (user, action) pair, nothing committed on failure — only the payout leg
//! differs: `balance' = min(balance + reward, cap)`.

use std::collections::HashMap;
use vstd::prelude::*;

use crate::Error;
use crate::contract::claim_key;
use crate::contract::claim_key_of;
use crate::contract::reward_in;
use crate::token::spec_balance;

verus! {

broadcast use vstd::std_specs::hash::group_hash_axioms;

/// The capped ledger's state as contracts speak of it.
#[verifier::ext_equal]
pub ghost struct CappedView {
    /// The clamp every balance stays under.
    pub cap: i128,
    /// The reward table; an absent action grants no points.
    pub rewards: Map<u32, i128>,
    /// The claim records, as composite storage keys (`claim_key`).
    pub claims: Set<u128>,
    /// The accrued point balances.
    pub balances: Map<u64, i128>,
}

/// Well-formedness of a capped ledger: the cap is not negative and every
/// stored balance lies in `[0, cap]`. Constructors establish it and every
/// operation preserves it.
pub open spec fn capped_wf(v: CappedView) -> bool {
    &&& 0 <= v.cap
    &&& forall|user: u64|
        v.balances.contains_key(user) ==> 0 <= #[trigger] v.balances[user] <= v.cap
}

/// The transition of `claim`: a pair already claimed fails with
/// `AlreadyClaimed`, an action without a positive reward fails with
/// `ActionNotRewarded` — both leaving the state exactly as it was — and
/// otherwise the claim record appears and the user's balance grows by the
/// reward, clamped to the cap. On success the new balance is returned.
pub open spec fn spec_claim(v: CappedView, user: u64, action: u32) -> (
    CappedView,
    Result<i128, Error>,
) {
    if v.claims.contains(claim_key(user, action)) {
        (v, Err(Error::AlreadyClaimed))
    } else if reward_in(v.rewards, action) <= 0 {
        (v, Err(Error::ActionNotRewarded))
    } else {
        let total = spec_balance(v.balances, user) + reward_in(v.rewards, action);
        let new_balance: i128 = if total >= v.cap {
            v.cap
        } else {
            total as i128
        };
        (
            CappedView {
                claims: v.claims.insert(claim_key(user, action)),
                balances: v.balances.insert(user, new_balance),
                ..v
            },
            Ok(new_balance),
        )
    }
}

/// The capped-accrual reward ledger.
pub struct CappedLedger {
    cap: i128,
    rewards: HashMap<u32, i128>,
    claims: HashMap<u128, bool>,
    balances: HashMap<u64, i128>,
}

impl View for CappedLedger {
    type V = CappedView;

    closed spec fn view(&self) -> CappedView {
        CappedView {
            cap: self.cap,
            rewards: self.rewards@,
            claims: self.claims@.dom(),
            balances: self.balances@,
        }
    }
}

impl CappedLedger {
    /// An empty ledger clamping every balance to `cap`.
    pub fn new(cap: i128) -> (ledger: CappedLedger)
        requires
            0 <= cap,
        ensures
            ledger@.cap == cap,
            ledger@.rewards == Map::<u32, i128>::empty(),
            ledger@.claims == Set::<u128>::empty(),
            ledger@.balances == Map::<u64, i128>::empty(),
            capped_wf(ledger@),
    {
        CappedLedger {
            cap,
            rewards: HashMap::new(),
            claims: HashMap::new(),
            balances: HashMap::new(),
        }
    }

    /// The clamp every balance stays under.
    pub fn cap(&self) -> (cap: i128)
        ensures
            cap == self@.cap,
    {
        self.cap
    }

    /// Adds or overwrites the reward-table entry of `action`.
    pub fn set_reward(&mut self, action: u32, amount: i128)
        ensures
            final(self)@ == (CappedView {
                rewards: old(self)@.rewards.insert(action, amount),
                ..old(self)@
            }),
            capped_wf(old(self)@) ==> capped_wf(final(self)@),
    {
        self.rewards.insert(action, amount);
    }

    /// The points the table grants for `action`; 0 when never configured.
    pub fn get_reward(&self, action: u32) -> (amount: i128)
        ensures
            amount == reward_in(self@.rewards, action),
    {
        match self.rewards.get(&action) {
            Some(amount) => *amount,
            None => 0,
        }
    }

    /// Whether (`user`, `action`) has already been claimed.
    pub fn has_claimed(&self, user: u64, action: u32) -> (claimed: bool)
        ensures
            claimed == self@.claims.contains(claim_key(user, action)),
    {
        let key = claim_key_of(user, action);
        self.claims.contains_key(&key)
    }

    /// The points `user` has accrued; 0 for a user never seen.
    pub fn balance_of(&self, user: u64) -> (balance: i128)
        ensures
            balance == spec_balance(self@.balances, user),
    {
        match self.balances.get(&user) {
            Some(balance) => *balance,
            None => 0,
        }
    }

    /// Claims the reward of `action` for `user` at most once: a repeated
    /// claim fails with `AlreadyClaimed` and an unrewarded action with
    /// `ActionNotRewarded`, both changing nothing; otherwise the claim is
    /// recorded and the balance grows by the reward, clamped to the cap.
    pub fn claim(&mut self, user: u64, action: u32) -> (r: Result<i128, Error>)
        requires
            capped_wf(old(self)@),
        ensures
            capped_wf(final(self)@),
            ({
                let (v2, r2) = spec_claim(old(self)@, user, action);
                final(self)@ == v2 && r == r2
            }),
            r matches Ok(balance) ==> balance == spec_balance(final(self)@.balances, user)
                && balance <= final(self)@.cap,
            r matches Ok(balance) ==> ({
                let total = spec_balance(old(self)@.balances, user) + reward_in(
                    old(self)@.rewards,
                    action,
                );
                balance == if total >= old(self)@.cap {
                    old(self)@.cap as int
                } else {
                    total
                }
            }),
            r is Ok ==> final(self)@.claims == old(self)@.claims.insert(claim_key(user, action)),
            r is Err ==> final(self)@ == old(self)@,
            final(self)@.cap == old(self)@.cap,
            final(self)@.rewards == old(self)@.rewards,
    {
        if self.has_claimed(user, action) {
            return Err(Error::AlreadyClaimed);
        }
        let reward = self.get_reward(action);
        if reward <= 0 {
            return Err(Error::ActionNotRewarded);
        }
        let balance = self.balance_of(user);
        let new_balance: i128 = if reward >= self.cap - balance {
            self.cap
        } else {
            balance + reward
        };
        let key = claim_key_of(user, action);
        self.claims.insert(key, true);
        self.balances.insert(user, new_balance);
        Ok(new_balance)
    }
}

} // verus!
