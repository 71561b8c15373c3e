//! The distributor itself: the admin registry and the claim ledger.
//!
//! `ZiAirdrop` owns the administrator identity, the payout-token
//! configuration, the per-action reward table, and the set of (user,
//! action) pairs already paid. Every mutating operation is specified as a
//! pure transition on the view (`spec_initialize`, `spec_set_config`,
//! `spec_set_airdrop_amount`, `spec_distribute`): the new state and the
//! outcome are a function of the old state and the arguments, and every
//! failing transition leaves the state exactly as it was.
//!
//! Callers at the invocation boundary authenticate a principal first and
//! pass it as `caller`; the library decides from values alone.

use std::collections::HashMap;
use vstd::prelude::*;

use crate::Error;
use crate::action::Action;
use crate::token::TokenLedger;
use crate::token::spec_balance;
use crate::token::spec_transfer;
use crate::token::transfer_ok;

verus! {

broadcast use vstd::std_specs::hash::group_hash_axioms;

/// The configuration slot the administrator owns besides the reward
/// table: the identifier of the token rewards are paid in.
#[derive(Clone, Copy, Debug, PartialEq, Eq, Structural)]
pub struct Config {
    pub token: u64,
}

/// The distributor's state as contracts speak of it.
#[verifier::ext_equal]
pub ghost struct AirdropView {
    /// The single administrator, once `initialize` has stored one.
    pub admin: Option<u64>,
    /// The payout token's identifier, once `set_config` has stored one.
    pub token: Option<u64>,
    /// The reward table; an absent action grants no reward.
    pub rewards: Map<u32, i128>,
    /// The claim records, as composite storage keys (`claim_key`).
    pub claims: Set<u128>,
}

/// The composite storage key of the claim record for (`user`, `action`).
pub open spec fn claim_key(user: u64, action: u32) -> u128 {
    (user as int * 0x1_0000_0000 + action as int) as u128
}

/// Distinct (user, action) pairs have distinct claim keys, so one claim
/// record can never stand for two pairs.
pub proof fn lemma_claim_key_injective(u1: u64, a1: u32, u2: u64, a2: u32)
    requires
        claim_key(u1, a1) == claim_key(u2, a2),
    ensures
        u1 == u2,
        a1 == a2,
{
    assert(u1 as int * 0x1_0000_0000 + a1 as int == u2 as int * 0x1_0000_0000 + a2 as int);
}

/// The reward a table grants for `action`: the configured amount, or 0
/// for an action never configured.
pub open spec fn reward_in(rewards: Map<u32, i128>, action: u32) -> i128 {
    if rewards.contains_key(action) {
        rewards[action]
    } else {
        0
    }
}

/// The reward the distributor's table grants for `action`.
pub open spec fn reward_of(v: AirdropView, action: u32) -> i128 {
    reward_in(v.rewards, action)
}

/// Whether (`user`, `action`) has already been paid out.
pub open spec fn spec_claimed(v: AirdropView, user: u64, action: u32) -> bool {
    v.claims.contains(claim_key(user, action))
}

/// The transition of `initialize`: first write wins, every later call
/// fails and changes nothing.
pub open spec fn spec_initialize(v: AirdropView, admin: u64) -> (AirdropView, Result<(), Error>) {
    if v.admin is Some {
        (v, Err(Error::AlreadyInitialized))
    } else {
        (AirdropView { admin: Some(admin), ..v }, Ok(()))
    }
}

/// The transition of `set_config`: only the stored administrator may
/// overwrite the token configuration.
pub open spec fn spec_set_config(v: AirdropView, caller: u64, config: Config) -> (
    AirdropView,
    Result<(), Error>,
) {
    match v.admin {
        None => (v, Err(Error::NotInitialized)),
        Some(admin) => if caller != admin {
            (v, Err(Error::Unauthorized))
        } else {
            (AirdropView { token: Some(config.token), ..v }, Ok(()))
        },
    }
}

/// The transition of `set_airdrop_amount`: only the stored administrator
/// may add or overwrite a reward-table entry.
pub open spec fn spec_set_airdrop_amount(
    v: AirdropView,
    caller: u64,
    action: u32,
    amount: i128,
) -> (AirdropView, Result<(), Error>) {
    match v.admin {
        None => (v, Err(Error::NotInitialized)),
        Some(admin) => if caller != admin {
            (v, Err(Error::Unauthorized))
        } else {
            (AirdropView { rewards: v.rewards.insert(action, amount), ..v }, Ok(()))
        },
    }
}

/// The decision of a distribution request, before any side effect: the
/// checks of `distribute_tokens` in their order — the call must be
/// authorized by `sender`, the pair (`recipient`, `action`) must be
/// unclaimed, the action's reward must be positive, and the payout token
/// must be configured. On success, the amount to transfer.
pub open spec fn spec_check_distribution(
    v: AirdropView,
    caller: u64,
    sender: u64,
    recipient: u64,
    action: u32,
) -> Result<i128, Error> {
    spec_decide_distribution(
        caller == sender,
        spec_claimed(v, recipient, action),
        reward_of(v, action),
        v.token is Some,
    )
}

/// The transition of `distribute_tokens` over the distributor's state and
/// the token balances: if the checks pass and the transfer goes through,
/// the claim record appears and the balances move, as one step; otherwise
/// both are left exactly as they were.
pub open spec fn spec_distribute(
    v: AirdropView,
    b: Map<u64, i128>,
    caller: u64,
    sender: u64,
    recipient: u64,
    action: u32,
) -> (AirdropView, Map<u64, i128>, Result<bool, Error>) {
    match spec_check_distribution(v, caller, sender, recipient, action) {
        Err(e) => (v, b, Err(e)),
        Ok(amount) => {
            let (b2, tr) = spec_transfer(b, sender, recipient, amount);
            match tr {
                Err(e) => (v, b, Err(e)),
                Ok(unit) => (
                    AirdropView { claims: v.claims.insert(claim_key(recipient, action)), ..v },
                    b2,
                    Ok(true),
                ),
            }
        },
    }
}

/// The ordinal summary `get_status` folds a user's claims into: the
/// highest-numbered claimed action's code, or 0 with no claim at all.
pub open spec fn spec_status(v: AirdropView, user: u64) -> u128 {
    spec_status_from_flags(
        spec_claimed(v, user, Action::ChangeTheme.spec_code()),
        spec_claimed(v, user, Action::CreateParticles.spec_code()),
        spec_claimed(v, user, Action::SpinCube.spec_code()),
    )
}

/// The decision at the heart of a distribution request, from the plain
/// values the storage boundary read: whether the payout may go ahead, and
/// if so with what amount. `authorized` says the call was proven to come
/// from the funding account, `claimed` whether the (recipient, action)
/// claim record exists, `amount` the action's configured reward, and
/// `token_configured` whether a payout token is stored. A boundary that
/// keeps its state in host storage reads those four values and lets this
/// function decide; the in-memory distributor decides through it too.
pub fn decide_distribution(
    authorized: bool,
    claimed: bool,
    amount: i128,
    token_configured: bool,
) -> (r: Result<i128, Error>)
    ensures
        r == spec_decide_distribution(authorized, claimed, amount, token_configured),
        r is Ok <==> authorized && !claimed && amount > 0 && token_configured,
        r matches Ok(a) ==> a == amount,
{
    if !authorized {
        Err(Error::Unauthorized)
    } else if claimed {
        Err(Error::AlreadyClaimed)
    } else if amount <= 0 {
        Err(Error::ActionNotRewarded)
    } else if !token_configured {
        Err(Error::NotInitialized)
    } else {
        Ok(amount)
    }
}

/// What `decide_distribution` returns: the checks of a distribution in
/// their order — authorization, the claim record, the reward amount, the
/// token configuration — each failing with its own error.
pub open spec fn spec_decide_distribution(
    authorized: bool,
    claimed: bool,
    amount: i128,
    token_configured: bool,
) -> Result<i128, Error> {
    if !authorized {
        Err(Error::Unauthorized)
    } else if claimed {
        Err(Error::AlreadyClaimed)
    } else if amount <= 0 {
        Err(Error::ActionNotRewarded)
    } else if !token_configured {
        Err(Error::NotInitialized)
    } else {
        Ok(amount)
    }
}

/// The ordinal level three claim flags fold to: the highest-numbered
/// claimed action's code wins. This is the precedence rule of
/// `get_status`, from the plain flags a storage boundary read.
pub fn status_from_flags(change_theme: bool, create_particles: bool, spin_cube: bool) -> (status:
    u128)
    ensures
        status == spec_status_from_flags(change_theme, create_particles, spin_cube),
{
    if change_theme {
        3
    } else if create_particles {
        2
    } else if spin_cube {
        1
    } else {
        0
    }
}

/// What `status_from_flags` returns.
pub open spec fn spec_status_from_flags(
    change_theme: bool,
    create_particles: bool,
    spin_cube: bool,
) -> u128 {
    if change_theme {
        3
    } else if create_particles {
        2
    } else if spin_cube {
        1
    } else {
        0
    }
}

/// The one-shot airdrop distributor: admin registry and claim ledger.
pub struct ZiAirdrop {
    admin: Option<u64>,
    token: Option<u64>,
    rewards: HashMap<u32, i128>,
    claims: HashMap<u128, bool>,
}

impl View for ZiAirdrop {
    type V = AirdropView;

    closed spec fn view(&self) -> AirdropView {
        AirdropView {
            admin: self.admin,
            token: self.token,
            rewards: self.rewards@,
            claims: self.claims@.dom(),
        }
    }
}

/// The composite storage key of the claim record for (`user`, `action`).
pub(crate) fn claim_key_of(user: u64, action: u32) -> (key: u128)
    ensures
        key == claim_key(user, action),
{
    (user as u128) * 0x1_0000_0000u128 + (action as u128)
}

impl ZiAirdrop {
    /// A distributor with nothing stored: no administrator, no token, an
    /// empty reward table, and no claim record.
    pub fn new() -> (z: ZiAirdrop)
        ensures
            z@.admin is None,
            z@.token is None,
            z@.rewards == Map::<u32, i128>::empty(),
            z@.claims == Set::<u128>::empty(),
    {
        ZiAirdrop {
            admin: None,
            token: None,
            rewards: HashMap::new(),
            claims: HashMap::new(),
        }
    }

    /// Stores `admin` as the sole administrator, exactly once: fails with
    /// `AlreadyInitialized`, changing nothing, if one is already stored.
    pub fn initialize(&mut self, admin: u64) -> (r: Result<(), Error>)
        ensures
            ({
                let (v2, r2) = spec_initialize(old(self)@, admin);
                final(self)@ == v2 && r == r2
            }),
            r is Ok <==> old(self)@.admin is None,
            r is Ok ==> final(self)@.admin == Some(admin),
            r is Err ==> final(self)@ == old(self)@ && r == Err::<(), Error>(
                Error::AlreadyInitialized,
            ),
            final(self)@.token == old(self)@.token,
            final(self)@.rewards == old(self)@.rewards,
            final(self)@.claims == old(self)@.claims,
    {
        if self.admin.is_some() {
            Err(Error::AlreadyInitialized)
        } else {
            self.admin = Some(admin);
            Ok(())
        }
    }

    /// Overwrites the token configuration, on the administrator's own
    /// authority: fails with `NotInitialized` before `initialize`, and
    /// with `Unauthorized` for every caller but the administrator; on
    /// failure nothing changes.
    pub fn set_config(&mut self, caller: u64, config: Config) -> (r: Result<(), Error>)
        ensures
            ({
                let (v2, r2) = spec_set_config(old(self)@, caller, config);
                final(self)@ == v2 && r == r2
            }),
            r is Ok <==> old(self)@.admin == Some(caller),
            r is Ok ==> final(self)@.token == Some(config.token),
            r is Err ==> final(self)@ == old(self)@,
            final(self)@.admin == old(self)@.admin,
            final(self)@.rewards == old(self)@.rewards,
            final(self)@.claims == old(self)@.claims,
    {
        match self.admin {
            None => Err(Error::NotInitialized),
            Some(admin) => {
                if caller != admin {
                    Err(Error::Unauthorized)
                } else {
                    self.token = Some(config.token);
                    Ok(())
                }
            },
        }
    }

    /// Adds or overwrites the reward-table entry of `action`, on the
    /// administrator's own authority: fails with `NotInitialized` before
    /// `initialize`, and with `Unauthorized` for every caller but the
    /// administrator; on failure the table is left untouched.
    pub fn set_airdrop_amount(&mut self, caller: u64, action: u32, amount: i128) -> (r: Result<
        (),
        Error,
    >)
        ensures
            ({
                let (v2, r2) = spec_set_airdrop_amount(old(self)@, caller, action, amount);
                final(self)@ == v2 && r == r2
            }),
            r is Ok <==> old(self)@.admin == Some(caller),
            r is Ok ==> reward_of(final(self)@, action) == amount,
            r is Err ==> final(self)@ == old(self)@,
            final(self)@.admin == old(self)@.admin,
            final(self)@.token == old(self)@.token,
            final(self)@.claims == old(self)@.claims,
    {
        match self.admin {
            None => Err(Error::NotInitialized),
            Some(admin) => {
                if caller != admin {
                    Err(Error::Unauthorized)
                } else {
                    self.rewards.insert(action, amount);
                    Ok(())
                }
            },
        }
    }

    /// The reward the table grants for `action`: the configured amount,
    /// or 0 for an action never configured. Read access is public.
    pub fn get_airdrop_amount(&self, action: u32) -> (amount: i128)
        ensures
            amount == reward_of(self@, action),
    {
        match self.rewards.get(&action) {
            Some(amount) => *amount,
            None => 0,
        }
    }

    /// Whether (`user`, `action`) has already been paid out. Read access
    /// is public.
    pub fn is_performed_action(&self, user: u64, action: u32) -> (claimed: bool)
        ensures
            claimed == spec_claimed(self@, user, action),
    {
        let key = claim_key_of(user, action);
        self.claims.contains_key(&key)
    }

    /// Decides a distribution request without touching any state: the
    /// checks of `distribute_tokens`, in their order, and on success the
    /// amount the token transfer must move. The boundary that performs
    /// the transfer outside this library calls this first and records the
    /// claim with `mark_action_performed` only once the transfer went
    /// through.
    pub fn check_distribution(
        &self,
        caller: u64,
        sender: u64,
        recipient: u64,
        action: u32,
    ) -> (r: Result<i128, Error>)
        ensures
            r == spec_check_distribution(self@, caller, sender, recipient, action),
            r matches Ok(amount) ==> amount == reward_of(self@, action) && amount > 0,
            r is Ok <==> caller == sender && !spec_claimed(self@, recipient, action)
                && reward_of(self@, action) > 0 && self@.token is Some,
    {
        let claimed = self.is_performed_action(recipient, action);
        let amount = self.get_airdrop_amount(action);
        decide_distribution(caller == sender, claimed, amount, self.token.is_some())
    }

    /// Writes the claim record for (`user`, `action`); nothing else moves.
    /// This is the commit step of a distribution, taken only after the
    /// payout went through.
    pub fn mark_action_performed(&mut self, user: u64, action: u32)
        ensures
            final(self)@ == (AirdropView {
                claims: old(self)@.claims.insert(claim_key(user, action)),
                ..old(self)@
            }),
    {
        let key = claim_key_of(user, action);
        self.claims.insert(key, true);
    }

    /// Pays the reward of `action` to `recipient` at most once: demands
    /// the call be authorized by `sender`, refuses a pair already paid
    /// (`AlreadyClaimed`) and an action without a positive reward
    /// (`ActionNotRewarded`), moves the amount on the token ledger, and
    /// records the claim — transfer and record as one step. On any
    /// failure neither the claim records nor the balances change. The
    /// ledger handed in must keep the configured payout token: the
    /// boundary builds the token client from the stored configuration,
    /// so the two cannot diverge there.
    pub fn distribute_tokens(
        &mut self,
        token: &mut TokenLedger,
        caller: u64,
        sender: u64,
        recipient: u64,
        action: u32,
    ) -> (r: Result<bool, Error>)
        requires
            match old(self)@.token {
                Some(t) => t == old(token).spec_id(),
                None => true,
            },
        ensures
            ({
                let (v2, b2, r2) = spec_distribute(
                    old(self)@,
                    old(token)@,
                    caller,
                    sender,
                    recipient,
                    action,
                );
                final(self)@ == v2 && final(token)@ == b2 && r == r2
            }),
            final(token).spec_id() == old(token).spec_id(),
            r is Ok <==> spec_check_distribution(
                old(self)@,
                caller,
                sender,
                recipient,
                action,
            ) is Ok && transfer_ok(old(token)@, sender, recipient, reward_of(old(self)@, action)),
            r is Ok ==> spec_claimed(final(self)@, recipient, action),
            r is Ok ==> final(self)@.claims == old(self)@.claims.insert(
                claim_key(recipient, action),
            ),
            r is Ok && sender != recipient ==> spec_balance(final(token)@, recipient)
                == spec_balance(old(token)@, recipient) + reward_of(old(self)@, action)
                && spec_balance(final(token)@, sender) == spec_balance(old(token)@, sender)
                - reward_of(old(self)@, action),
            r is Ok && sender == recipient ==> final(token)@ == old(token)@,
            r is Err ==> final(self)@ == old(self)@ && final(token)@ == old(token)@,
            final(self)@.admin == old(self)@.admin,
            final(self)@.token == old(self)@.token,
            final(self)@.rewards == old(self)@.rewards,
    {
        let amount = match self.check_distribution(caller, sender, recipient, action) {
            Ok(amount) => amount,
            Err(e) => {
                return Err(e);
            },
        };
        match token.transfer(sender, recipient, amount) {
            Ok(unit) => {
                self.mark_action_performed(recipient, action);
                Ok(true)
            },
            Err(e) => Err(e),
        }
    }

    /// Folds `user`'s claims into one ordinal level: the highest-numbered
    /// claimed action's code wins, and 0 means no claim at all. A
    /// presentation convenience over the claim records, not state of its
    /// own.
    pub fn get_status(&self, user: u64) -> (status: u128)
        ensures
            status == spec_status(self@, user),
    {
        status_from_flags(
            self.is_performed_action(user, Action::ChangeTheme.code()),
            self.is_performed_action(user, Action::CreateParticles.code()),
            self.is_performed_action(user, Action::SpinCube.code()),
        )
    }
}

} // verus!
