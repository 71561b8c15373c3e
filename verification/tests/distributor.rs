use zi_airdrop::Error;
use zi_airdrop::action::Action;
use zi_airdrop::contract::Config;
use zi_airdrop::contract::ZiAirdrop;
use zi_airdrop::token::TokenLedger;

const ADMIN: u64 = 1;
const DISTRIBUTOR: u64 = 2;
const USER: u64 = 3;
const TOKEN: u64 = 90;

fn configured() -> (ZiAirdrop, TokenLedger) {
    let mut z = ZiAirdrop::new();
    let mut t = TokenLedger::new(TOKEN);
    assert_eq!(z.initialize(ADMIN), Ok(()));
    assert_eq!(z.set_config(ADMIN, Config { token: TOKEN }), Ok(()));
    assert_eq!(z.set_airdrop_amount(ADMIN, 1, 20_000_000), Ok(()));
    t.mint(DISTRIBUTOR, 100_000_000);
    (z, t)
}

#[test]
fn lib_test_distribute_tokens() {
    let z = ZiAirdrop::new();
    let _ = z;
}

#[test]
fn test_test_distribute_tokens() {
    let z = ZiAirdrop::new();
    let t = TokenLedger::new(TOKEN);
    let _ = (z, t);
}

#[test]
fn end_to_end_scenario() {
    let (mut z, mut t) = configured();
    assert_eq!(z.distribute_tokens(&mut t, DISTRIBUTOR, DISTRIBUTOR, USER, 1), Ok(true));
    assert_eq!(t.balance_of(USER), 20_000_000);
    assert_eq!(t.balance_of(DISTRIBUTOR), 80_000_000);
    assert!(z.is_performed_action(USER, 1));
    assert_eq!(
        z.distribute_tokens(&mut t, DISTRIBUTOR, DISTRIBUTOR, USER, 1),
        Err(Error::AlreadyClaimed)
    );
    assert_eq!(t.balance_of(USER), 20_000_000);
    assert_eq!(t.balance_of(DISTRIBUTOR), 80_000_000);
}

#[test]
fn self_claim_records_but_moves_nothing() {
    let (mut z, mut t) = configured();
    t.mint(USER, 20_000_000);
    assert_eq!(z.distribute_tokens(&mut t, USER, USER, USER, 1), Ok(true));
    assert!(z.is_performed_action(USER, 1));
    assert_eq!(t.balance_of(USER), 20_000_000);
    assert_eq!(
        z.distribute_tokens(&mut t, USER, USER, USER, 1),
        Err(Error::AlreadyClaimed)
    );
}

#[test]
fn initialize_is_first_write_wins() {
    let mut z = ZiAirdrop::new();
    assert_eq!(z.initialize(ADMIN), Ok(()));
    assert_eq!(z.initialize(USER), Err(Error::AlreadyInitialized));
    assert_eq!(z.set_airdrop_amount(ADMIN, 1, 5), Ok(()));
    assert_eq!(z.get_airdrop_amount(1), 5);
}

#[test]
fn configuration_before_initialize_fails() {
    let mut z = ZiAirdrop::new();
    assert_eq!(z.set_config(ADMIN, Config { token: TOKEN }), Err(Error::NotInitialized));
    assert_eq!(z.set_airdrop_amount(ADMIN, 1, 5), Err(Error::NotInitialized));
    assert_eq!(z.get_airdrop_amount(1), 0);
}

#[test]
fn authorization_gate_on_configuration() {
    let mut z = ZiAirdrop::new();
    assert_eq!(z.initialize(ADMIN), Ok(()));
    assert_eq!(z.set_airdrop_amount(ADMIN, 1, 7), Ok(()));
    assert_eq!(z.set_airdrop_amount(USER, 1, 9_999), Err(Error::Unauthorized));
    assert_eq!(z.set_airdrop_amount(USER, 2, 9_999), Err(Error::Unauthorized));
    assert_eq!(z.get_airdrop_amount(1), 7);
    assert_eq!(z.get_airdrop_amount(2), 0);
    assert_eq!(z.set_config(USER, Config { token: TOKEN }), Err(Error::Unauthorized));
}

#[test]
fn distribute_demands_sender_authorization() {
    let (mut z, mut t) = configured();
    assert_eq!(
        z.distribute_tokens(&mut t, USER, DISTRIBUTOR, USER, 1),
        Err(Error::Unauthorized)
    );
    assert!(!z.is_performed_action(USER, 1));
    assert_eq!(t.balance_of(USER), 0);
}

#[test]
fn zero_amount_guard() {
    let (mut z, mut t) = configured();
    assert_eq!(z.get_airdrop_amount(2), 0);
    assert_eq!(
        z.distribute_tokens(&mut t, DISTRIBUTOR, DISTRIBUTOR, USER, 2),
        Err(Error::ActionNotRewarded)
    );
    assert_eq!(z.set_airdrop_amount(ADMIN, 3, 0), Ok(()));
    assert_eq!(
        z.distribute_tokens(&mut t, DISTRIBUTOR, DISTRIBUTOR, USER, 3),
        Err(Error::ActionNotRewarded)
    );
    assert_eq!(z.set_airdrop_amount(ADMIN, 4, -5), Ok(()));
    assert_eq!(
        z.distribute_tokens(&mut t, DISTRIBUTOR, DISTRIBUTOR, USER, 4),
        Err(Error::ActionNotRewarded)
    );
    assert!(!z.is_performed_action(USER, 2));
    assert!(!z.is_performed_action(USER, 3));
    assert!(!z.is_performed_action(USER, 4));
}

#[test]
fn distribute_without_token_configured_fails() {
    let mut z = ZiAirdrop::new();
    let mut t = TokenLedger::new(TOKEN);
    assert_eq!(z.initialize(ADMIN), Ok(()));
    assert_eq!(z.set_airdrop_amount(ADMIN, 1, 5), Ok(()));
    t.mint(DISTRIBUTOR, 100);
    assert_eq!(
        z.distribute_tokens(&mut t, DISTRIBUTOR, DISTRIBUTOR, USER, 1),
        Err(Error::NotInitialized)
    );
    assert!(!z.is_performed_action(USER, 1));
    assert_eq!(t.balance_of(DISTRIBUTOR), 100);
}

#[test]
fn failed_transfer_commits_nothing() {
    let (mut z, mut t) = configured();
    assert_eq!(z.set_airdrop_amount(ADMIN, 5, 1_000_000_000), Ok(()));
    assert_eq!(
        z.distribute_tokens(&mut t, DISTRIBUTOR, DISTRIBUTOR, USER, 5),
        Err(Error::TransferFailed)
    );
    assert!(!z.is_performed_action(USER, 5));
    assert_eq!(t.balance_of(USER), 0);
    assert_eq!(t.balance_of(DISTRIBUTOR), 100_000_000);
    assert_eq!(
        z.distribute_tokens(&mut t, DISTRIBUTOR, DISTRIBUTOR, USER, 5),
        Err(Error::TransferFailed)
    );
}

#[test]
fn configuration_snapshot_after_claim() {
    let (mut z, mut t) = configured();
    assert_eq!(z.distribute_tokens(&mut t, DISTRIBUTOR, DISTRIBUTOR, USER, 1), Ok(true));
    assert_eq!(t.balance_of(USER), 20_000_000);
    assert_eq!(z.set_airdrop_amount(ADMIN, 1, 50_000_000), Ok(()));
    assert!(z.is_performed_action(USER, 1));
    assert_eq!(
        z.distribute_tokens(&mut t, DISTRIBUTOR, DISTRIBUTOR, USER, 1),
        Err(Error::AlreadyClaimed)
    );
    assert_eq!(t.balance_of(USER), 20_000_000);
    let other: u64 = 4;
    assert_eq!(z.distribute_tokens(&mut t, DISTRIBUTOR, DISTRIBUTOR, other, 1), Ok(true));
    assert_eq!(t.balance_of(other), 50_000_000);
}

#[test]
fn status_reports_highest_claimed_action() {
    let (mut z, mut t) = configured();
    assert_eq!(z.set_airdrop_amount(ADMIN, 2, 1), Ok(()));
    assert_eq!(z.set_airdrop_amount(ADMIN, 3, 1), Ok(()));
    assert_eq!(z.get_status(USER), 0);
    assert_eq!(z.distribute_tokens(&mut t, DISTRIBUTOR, DISTRIBUTOR, USER, 1), Ok(true));
    assert_eq!(z.get_status(USER), 1);
    assert_eq!(z.distribute_tokens(&mut t, DISTRIBUTOR, DISTRIBUTOR, USER, 3), Ok(true));
    assert_eq!(z.get_status(USER), 3);
    assert_eq!(z.distribute_tokens(&mut t, DISTRIBUTOR, DISTRIBUTOR, USER, 2), Ok(true));
    assert_eq!(z.get_status(USER), 3);
}

#[test]
fn check_then_record_split() {
    let (mut z, _t) = configured();
    assert_eq!(z.check_distribution(DISTRIBUTOR, DISTRIBUTOR, USER, 1), Ok(20_000_000));
    z.mark_action_performed(USER, 1);
    assert!(z.is_performed_action(USER, 1));
    assert_eq!(
        z.check_distribution(DISTRIBUTOR, DISTRIBUTOR, USER, 1),
        Err(Error::AlreadyClaimed)
    );
}

#[test]
fn action_codes_round_trip_and_reject_unknown() {
    assert_eq!(Action::SpinCube.code(), 1);
    assert_eq!(Action::CreateParticles.code(), 2);
    assert_eq!(Action::ChangeTheme.code(), 3);
    assert_eq!(Action::from_code(1), Some(Action::SpinCube));
    assert_eq!(Action::from_code(2), Some(Action::CreateParticles));
    assert_eq!(Action::from_code(3), Some(Action::ChangeTheme));
    assert_eq!(Action::from_code(0), None);
    assert_eq!(Action::from_code(4), None);
    assert_eq!(Action::from_code(u32::MAX), None);
}

#[test]
fn token_transfer_moves_exact_amounts() {
    let mut t = TokenLedger::new(TOKEN);
    assert_eq!(t.id(), TOKEN);
    t.mint(DISTRIBUTOR, 10);
    assert_eq!(t.transfer(DISTRIBUTOR, USER, 4), Ok(()));
    assert_eq!(t.balance_of(DISTRIBUTOR), 6);
    assert_eq!(t.balance_of(USER), 4);
    assert_eq!(t.transfer(DISTRIBUTOR, USER, 7), Err(Error::TransferFailed));
    assert_eq!(t.transfer(DISTRIBUTOR, USER, -1), Err(Error::TransferFailed));
    assert_eq!(t.balance_of(DISTRIBUTOR), 6);
    assert_eq!(t.balance_of(USER), 4);
    assert_eq!(t.transfer(USER, USER, 4), Ok(()));
    assert_eq!(t.balance_of(USER), 4);
}

#[test]
fn token_transfer_refuses_overflowing_recipient() {
    let mut t = TokenLedger::new(TOKEN);
    t.mint(DISTRIBUTOR, i128::MAX);
    t.mint(USER, 1);
    assert_eq!(t.transfer(USER, DISTRIBUTOR, 1), Err(Error::TransferFailed));
    assert_eq!(t.balance_of(DISTRIBUTOR), i128::MAX);
    assert_eq!(t.balance_of(USER), 1);
}
