//! The laws the distributor obeys, stated over the pure transitions of
//! `crate::contract` and `crate::points` and proved once for every state
//! and every input. The executable operations are pinned to those same
//! transitions by their own contracts, so each law carries over to the
//! running code.

use vstd::prelude::*;

use crate::Error;
use crate::contract::AirdropView;
use crate::contract::Config;
use crate::contract::reward_of;
use crate::contract::spec_claimed;
use crate::contract::spec_distribute;
use crate::contract::spec_initialize;
use crate::contract::spec_set_airdrop_amount;
use crate::contract::spec_set_config;
use crate::points::CappedView;
use crate::points::spec_claim;

verus! {

/// Idempotence: after a distribution succeeds, the identical request
/// fails with `AlreadyClaimed`, and the state after the second call — the
/// claim records and the token balances both — is exactly the state after
/// the first.
pub proof fn lemma_distribute_idempotent(
    v: AirdropView,
    b: Map<u64, i128>,
    caller: u64,
    sender: u64,
    recipient: u64,
    action: u32,
)
    requires
        spec_distribute(v, b, caller, sender, recipient, action).2 is Ok,
    ensures
        ({
            let (v1, b1, r1) = spec_distribute(v, b, caller, sender, recipient, action);
            spec_distribute(v1, b1, caller, sender, recipient, action) == (
                v1,
                b1,
                Err::<bool, Error>(Error::AlreadyClaimed),
            )
        }),
{
}

/// No-op on failure: a distribution that fails for any reason leaves the
/// claim records, the whole distributor state and the token balances
/// exactly as they were.
pub proof fn lemma_distribute_no_op_on_failure(
    v: AirdropView,
    b: Map<u64, i128>,
    caller: u64,
    sender: u64,
    recipient: u64,
    action: u32,
)
    requires
        spec_distribute(v, b, caller, sender, recipient, action).2 is Err,
    ensures
        spec_distribute(v, b, caller, sender, recipient, action).0 == v,
        spec_distribute(v, b, caller, sender, recipient, action).1 == b,
{
}

/// Authorization gate: with an administrator stored, a reward-table
/// change attempted by anyone else always fails with `Unauthorized` and
/// leaves the whole state, the reward table included, unchanged.
pub proof fn lemma_set_amount_authorization_gate(
    v: AirdropView,
    caller: u64,
    action: u32,
    amount: i128,
)
    requires
        v.admin is Some,
        v.admin != Some(caller),
    ensures
        spec_set_airdrop_amount(v, caller, action, amount) == (
            v,
            Err::<(), Error>(Error::Unauthorized),
        ),
{
}

/// Configuration snapshot: once a distribution for `action` succeeded,
/// changing the action's reward-table entry neither erases nor rewrites
/// the recorded claim, and a repeated distribution under the new table
/// still fails with `AlreadyClaimed` and moves no balance — the paid
/// amount was the one configured at the time of the payout, for all time.
pub proof fn lemma_configuration_snapshot(
    v: AirdropView,
    b: Map<u64, i128>,
    caller: u64,
    sender: u64,
    recipient: u64,
    action: u32,
    reconfigurer: u64,
    new_amount: i128,
)
    requires
        spec_distribute(v, b, caller, sender, recipient, action).2 is Ok,
    ensures
        ({
            let (v1, b1, r1) = spec_distribute(v, b, caller, sender, recipient, action);
            let (v2, r2) = spec_set_airdrop_amount(v1, reconfigurer, action, new_amount);
            &&& v2.claims == v1.claims
            &&& spec_claimed(v2, recipient, action)
            &&& spec_distribute(v2, b1, caller, sender, recipient, action) == (
                v2,
                b1,
                Err::<bool, Error>(Error::AlreadyClaimed),
            )
        }),
{
}

/// Zero-amount guard: for an action never configured the read amount is
/// 0, and a distribution for it always fails and changes nothing; when
/// the request is authorized and the pair unclaimed, the failure is
/// `ActionNotRewarded`.
pub proof fn lemma_zero_amount_guard(
    v: AirdropView,
    b: Map<u64, i128>,
    caller: u64,
    sender: u64,
    recipient: u64,
    action: u32,
)
    requires
        !v.rewards.contains_key(action),
    ensures
        reward_of(v, action) == 0,
        spec_distribute(v, b, caller, sender, recipient, action).2 is Err,
        spec_distribute(v, b, caller, sender, recipient, action).0 == v,
        spec_distribute(v, b, caller, sender, recipient, action).1 == b,
        caller == sender && !spec_claimed(v, recipient, action) ==> spec_distribute(
            v,
            b,
            caller,
            sender,
            recipient,
            action,
        ).2 == Err::<bool, Error>(Error::ActionNotRewarded),
{
}

/// A claim, once recorded, is terminal: no operation of the distributor —
/// not another initialization attempt, not a configuration change, not a
/// further distribution, successful or not — ever removes or rewrites it.
pub proof fn lemma_claim_is_terminal(
    v: AirdropView,
    b: Map<u64, i128>,
    user: u64,
    action: u32,
    admin: u64,
    caller: u64,
    config: Config,
    table_action: u32,
    table_amount: i128,
    sender: u64,
    recipient: u64,
    requested_action: u32,
)
    requires
        spec_claimed(v, user, action),
    ensures
        spec_claimed(spec_initialize(v, admin).0, user, action),
        spec_claimed(spec_set_config(v, caller, config).0, user, action),
        spec_claimed(spec_set_airdrop_amount(v, caller, table_action, table_amount).0, user, action),
        spec_claimed(
            spec_distribute(v, b, caller, sender, recipient, requested_action).0,
            user,
            action,
        ),
{
}

/// Idempotence of the capped-accrual variant: after a claim succeeds, the
/// identical claim fails with `AlreadyClaimed` and leaves the ledger — the
/// balance included — exactly as the first claim left it.
pub proof fn lemma_capped_claim_idempotent(v: CappedView, user: u64, action: u32)
    requires
        spec_claim(v, user, action).1 is Ok,
    ensures
        ({
            let (v1, r1) = spec_claim(v, user, action);
            spec_claim(v1, user, action) == (v1, Err::<i128, Error>(Error::AlreadyClaimed))
        }),
{
}

} // verus!
