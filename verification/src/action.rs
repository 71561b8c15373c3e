//! The closed set of claimable actions and its wire-level numeric codes.
//!
//! At the invocation boundary an action travels as a `u32`. The mapping in
//! both directions is explicit and exhaustive, and an unknown code is
//! rejected rather than silently folded onto a default variant.

use vstd::prelude::*;

verus! {

/// A claimable reward category.
#[derive(Clone, Copy, Debug, PartialEq, Eq, Structural)]
pub enum Action {
    SpinCube,
    CreateParticles,
    ChangeTheme,
}

impl Action {
    /// The wire-level numeric code of this action.
    pub open spec fn spec_code(self) -> u32 {
        match self {
            Action::SpinCube => 1,
            Action::CreateParticles => 2,
            Action::ChangeTheme => 3,
        }
    }

    /// The action a wire-level code names, if any.
    pub open spec fn spec_from_code(code: u32) -> Option<Action> {
        if code == 1 {
            Some(Action::SpinCube)
        } else if code == 2 {
            Some(Action::CreateParticles)
        } else if code == 3 {
            Some(Action::ChangeTheme)
        } else {
            None
        }
    }

    /// Encodes this action as its wire-level code.
    pub fn code(self) -> (code: u32)
        ensures
            code == self.spec_code(),
    {
        match self {
            Action::SpinCube => 1,
            Action::CreateParticles => 2,
            Action::ChangeTheme => 3,
        }
    }

    /// Decodes a wire-level code, rejecting every unknown value.
    pub fn from_code(code: u32) -> (action: Option<Action>)
        ensures
            action == Action::spec_from_code(code),
    {
        if code == 1 {
            Some(Action::SpinCube)
        } else if code == 2 {
            Some(Action::CreateParticles)
        } else if code == 3 {
            Some(Action::ChangeTheme)
        } else {
            None
        }
    }
}

/// Encoding an action and decoding the code yields the action back,
/// and a decoded action encodes to the code it was decoded from: the
/// wire mapping is a bijection between the variants and the codes 1..=3.
pub proof fn lemma_code_round_trip(action: Action, code: u32)
    ensures
        Action::spec_from_code(action.spec_code()) == Some(action),
        Action::spec_from_code(code) matches Some(a) ==> a.spec_code() == code,
{
}

} // verus!
