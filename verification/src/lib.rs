//! A one-shot token-airdrop distributor.
//!
//! An administrator configures a reward schedule keyed by an action
//! identifier; end users claim the reward for a given action at most once;
//! a successful claim pays out a fixed amount of a fungible token from a
//! distributing account to the claiming account.
//!
//! The core is an idempotent claim state machine: each (user, action) pair
//! triggers exactly one payout, configuration changes are gated on the
//! single administrator, and no failing operation leaves any trace in the
//! state. The host environment (argument decoding, durable storage,
//! signature checking, the token contract itself) sits outside this crate;
//! the library works on plain values and is verified for every input the
//! host could hand it.

pub mod action;
pub mod contract;
pub mod laws;
pub mod points;
pub mod token;

use vstd::prelude::*;

verus! {

/// Every way an operation of the distributor can fail.
///
/// All failures are terminal for the invocation and commit no state.
#[derive(Clone, Copy, Debug, PartialEq, Eq, Structural)]
pub enum Error {
    /// `initialize` was called while an administrator is already stored.
    AlreadyInitialized,
    /// A configuration change was attempted before any administrator exists,
    /// or a distribution was attempted before the payout token is configured.
    NotInitialized,
    /// The caller is not the principal the operation demands.
    Unauthorized,
    /// The (user, action) pair has already been paid out.
    AlreadyClaimed,
    /// The action's configured reward amount is missing or not positive.
    ActionNotRewarded,
    /// The token ledger refused the payout transfer.
    TransferFailed,
}

} // verus!
