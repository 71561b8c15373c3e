use zi_airdrop::Error;
use zi_airdrop::action::Action;
use zi_airdrop::points::CappedLedger;

const USER: u64 = 11;

fn capped_table() -> CappedLedger {
    let mut ledger = CappedLedger::new(5);
    ledger.set_reward(Action::SpinCube.code(), 2);
    ledger.set_reward(Action::CreateParticles.code(), 2);
    ledger.set_reward(Action::ChangeTheme.code(), 1);
    ledger
}

#[test]
fn capped_accrual_scenario() {
    let mut ledger = capped_table();
    assert_eq!(ledger.cap(), 5);
    assert_eq!(ledger.balance_of(USER), 0);
    assert_eq!(ledger.claim(USER, Action::SpinCube.code()), Ok(2));
    assert_eq!(ledger.balance_of(USER), 2);
    assert_eq!(ledger.claim(USER, Action::CreateParticles.code()), Ok(4));
    assert_eq!(ledger.balance_of(USER), 4);
    assert_eq!(ledger.claim(USER, Action::ChangeTheme.code()), Ok(5));
    assert_eq!(ledger.balance_of(USER), 5);
    assert_eq!(ledger.claim(USER, Action::SpinCube.code()), Err(Error::AlreadyClaimed));
    assert_eq!(ledger.claim(USER, Action::CreateParticles.code()), Err(Error::AlreadyClaimed));
    assert_eq!(ledger.claim(USER, Action::ChangeTheme.code()), Err(Error::AlreadyClaimed));
    assert_eq!(ledger.balance_of(USER), 5);
}

#[test]
fn capped_balance_clamps_at_cap() {
    let mut ledger = CappedLedger::new(5);
    ledger.set_reward(1, 4);
    ledger.set_reward(2, 4);
    assert_eq!(ledger.claim(USER, 1), Ok(4));
    assert_eq!(ledger.claim(USER, 2), Ok(5));
    assert_eq!(ledger.balance_of(USER), 5);
}

#[test]
fn capped_unrewarded_action_fails() {
    let mut ledger = capped_table();
    assert_eq!(ledger.claim(USER, 9), Err(Error::ActionNotRewarded));
    ledger.set_reward(9, 0);
    assert_eq!(ledger.claim(USER, 9), Err(Error::ActionNotRewarded));
    assert_eq!(ledger.balance_of(USER), 0);
    assert!(!ledger.has_claimed(USER, 9));
}

#[test]
fn capped_balances_are_per_user() {
    let mut ledger = capped_table();
    let other: u64 = 12;
    assert_eq!(ledger.claim(USER, Action::SpinCube.code()), Ok(2));
    assert_eq!(ledger.balance_of(other), 0);
    assert_eq!(ledger.claim(other, Action::SpinCube.code()), Ok(2));
    assert_eq!(ledger.balance_of(USER), 2);
    assert_eq!(ledger.balance_of(other), 2);
}
