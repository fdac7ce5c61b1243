use coldstack::types::Error;
use coldstack::types::Event;
use coldstack::types::Principal;
use coldstack::GenesisConfig;
use coldstack::Pallet;

fn addr(b: u8) -> Vec<u8> {
    vec![b; 20]
}

fn url(b: u8) -> Vec<u8> {
    vec![b; 9]
}

const ADMIN: Principal = Principal { id: 1 };
const BILLER: Principal = Principal { id: 2 };

/// A fresh state with 1000 issuance and `BILLER` granted the Billing role
/// for address 90.
fn billing_state() -> Pallet {
    let genesis = GenesisConfig { key: ADMIN, total_issuance: 1000 };
    let mut p = genesis.build();
    let granted = p.grant_billing_permission(ADMIN, addr(90), BILLER, url(1));
    assert!(granted.is_ok());
    p
}

#[test]
fn genesis_locks_all_issuance() {
    let genesis = GenesisConfig { key: ADMIN, total_issuance: 1000 };
    let p = genesis.build();
    assert_eq!(p.total_issuance(), 1000);
    assert_eq!(p.locked_funds(), 1000);
    assert_eq!(p.total_file_count(), 0);
    assert_eq!(p.total_file_size(), 0);
    assert_eq!(p.balance_of(&addr(10)), 0);
    assert_eq!(p.key(), ADMIN);
}

#[test]
fn genesis_default_is_zeroed() {
    let genesis = GenesisConfig::default();
    assert_eq!(genesis.key, Principal { id: 0 });
    assert_eq!(genesis.total_issuance, 0);
}

#[test]
fn deposit_allocates_locked_funds() {
    let mut p = billing_state();
    let r = p.deposit(BILLER, addr(10), 300);
    assert_eq!(r, Ok(Event::Deposit(addr(10), 300)));
    assert_eq!(p.balance_of(&addr(10)), 300);
    assert_eq!(p.locked_funds(), 700);
    assert_eq!(p.total_issuance(), 1000);
}

#[test]
fn withdraw_returns_to_locked_funds() {
    let mut p = billing_state();
    p.deposit(BILLER, addr(10), 300).unwrap();
    let r = p.withdraw(BILLER, addr(10), 100);
    assert_eq!(r, Ok(Event::Withdraw(addr(10), 100)));
    assert_eq!(p.balance_of(&addr(10)), 200);
    assert_eq!(p.locked_funds(), 800);
}

#[test]
fn transfer_moves_balance_to_unseen_account() {
    let mut p = billing_state();
    p.deposit(BILLER, addr(10), 300).unwrap();
    p.withdraw(BILLER, addr(10), 100).unwrap();
    let r = p.transfer(BILLER, addr(10), addr(20), 50);
    assert_eq!(r, Ok(Event::Transfer(addr(10), addr(20), 50)));
    assert_eq!(p.balance_of(&addr(10)), 150);
    assert_eq!(p.balance_of(&addr(20)), 50);
    assert_eq!(p.locked_funds(), 800);
}

#[test]
fn overdraft_withdraw_fails_and_changes_nothing() {
    let mut p = billing_state();
    p.deposit(BILLER, addr(10), 300).unwrap();
    p.withdraw(BILLER, addr(10), 100).unwrap();
    p.transfer(BILLER, addr(10), addr(20), 50).unwrap();
    let r = p.withdraw(BILLER, addr(10), 1000);
    assert_eq!(r, Err(Error::InsufficientFunds));
    assert_eq!(p.balance_of(&addr(10)), 150);
    assert_eq!(p.balance_of(&addr(20)), 50);
    assert_eq!(p.locked_funds(), 800);
}

#[test]
fn deposit_beyond_locked_funds_fails() {
    let mut p = billing_state();
    let r = p.deposit(BILLER, addr(10), 1001);
    assert_eq!(r, Err(Error::InsufficientIssuance));
    assert_eq!(p.balance_of(&addr(10)), 0);
    assert_eq!(p.locked_funds(), 1000);
}

#[test]
fn deposit_without_billing_permission_fails() {
    let mut p = billing_state();
    let stranger = Principal { id: 77 };
    let r = p.deposit(stranger, addr(10), 5);
    assert_eq!(r, Err(Error::Unauthorized));
    assert_eq!(p.locked_funds(), 1000);
}

#[test]
fn deposit_rejects_short_address() {
    let mut p = billing_state();
    let r = p.deposit(BILLER, vec![10; 19], 5);
    assert_eq!(r, Err(Error::InvalidArguments));
    assert_eq!(p.locked_funds(), 1000);
}

#[test]
fn admin_may_move_funds_without_grant() {
    let genesis = GenesisConfig { key: ADMIN, total_issuance: 500 };
    let mut p = genesis.build();
    let r = p.deposit(ADMIN, addr(10), 200);
    assert_eq!(r, Ok(Event::Deposit(addr(10), 200)));
    assert_eq!(p.balance_of(&addr(10)), 200);
    assert_eq!(p.locked_funds(), 300);
}

#[test]
fn deposits_accumulate() {
    let mut p = billing_state();
    p.deposit(BILLER, addr(10), 300).unwrap();
    p.deposit(BILLER, addr(10), 150).unwrap();
    assert_eq!(p.balance_of(&addr(10)), 450);
    assert_eq!(p.locked_funds(), 550);
}

#[test]
fn transfer_to_self_changes_nothing() {
    let mut p = billing_state();
    p.deposit(BILLER, addr(10), 300).unwrap();
    let r = p.transfer(BILLER, addr(10), addr(10), 120);
    assert_eq!(r, Ok(Event::Transfer(addr(10), addr(10), 120)));
    assert_eq!(p.balance_of(&addr(10)), 300);
    assert_eq!(p.locked_funds(), 700);
}

#[test]
fn transfer_from_unseen_account_fails() {
    let mut p = billing_state();
    let r = p.transfer(BILLER, addr(30), addr(20), 1);
    assert_eq!(r, Err(Error::InsufficientFunds));
    assert_eq!(p.balance_of(&addr(20)), 0);
}

#[test]
fn withdraw_of_zero_from_unseen_account_succeeds() {
    let mut p = billing_state();
    let r = p.withdraw(BILLER, addr(30), 0);
    assert_eq!(r, Ok(Event::Withdraw(addr(30), 0)));
    assert_eq!(p.balance_of(&addr(30)), 0);
    assert_eq!(p.locked_funds(), 1000);
}

#[test]
fn issuance_is_conserved_across_a_call_sequence() {
    let mut p = billing_state();
    p.deposit(BILLER, addr(10), 300).unwrap();
    p.deposit(BILLER, addr(20), 450).unwrap();
    p.withdraw(BILLER, addr(10), 100).unwrap();
    p.transfer(BILLER, addr(20), addr(30), 200).unwrap();
    let _ = p.withdraw(BILLER, addr(30), 999);
    let _ = p.deposit(BILLER, addr(10), 9999);
    let sum = p.balance_of(&addr(10)) + p.balance_of(&addr(20)) + p.balance_of(&addr(30));
    assert_eq!(p.total_issuance(), p.locked_funds() + sum);
    assert_eq!(p.total_issuance(), 1000);
}

#[test]
fn transfer_rejects_short_destination() {
    let mut p = billing_state();
    p.deposit(BILLER, addr(10), 300).unwrap();
    let r = p.transfer(BILLER, addr(10), vec![20; 19], 50);
    assert_eq!(r, Err(Error::InvalidArguments));
    assert_eq!(p.balance_of(&addr(10)), 300);
}
