use vault::errors::VaultError;
use vault::ledger::Vault;
use vault::AccountId;

fn authority() -> AccountId {
    AccountId { id: 7 }
}

fn fresh_vault() -> Vault {
    Vault::initialize_vault(authority(), String::from("xSTOCK"), 5000, 3600, 100)
}

#[test]
fn new_vault_starts_empty() {
    let v = fresh_vault();
    assert_eq!(v.total_assets, 0);
    assert_eq!(v.total_shares, 0);
    assert_eq!(v.virtual_offset, 0);
    assert_eq!(v.epoch, 0);
    assert_eq!(v.utilization_cap_bps, 5000);
    assert_eq!(v.min_epoch_duration, 3600);
    assert_eq!(v.last_roll_timestamp, 100);
    assert_eq!(v.premium_balance_usdc, 0);
    assert!(!v.is_paused);
}

#[test]
fn first_deposit_mints_one_to_one_and_sets_offset() {
    let mut v = fresh_vault();
    let r = v.deposit(1_000_000, 200);
    assert_eq!(r, Ok(1_000_000));
    assert_eq!(v.total_assets, 1_000_000);
    assert_eq!(v.total_shares, 1_000_000);
    assert_eq!(v.virtual_offset, 1000);
    assert_eq!(v.epoch, 1);
    assert_eq!(v.last_roll_timestamp, 200);
}

#[test]
fn second_deposit_uses_effective_shares() {
    let mut v = fresh_vault();
    v.deposit(1_000_000, 200).unwrap();
    // floor(500000 * (1000000 + 1000) / 1000000) = 500500
    let r = v.deposit(500_000, 300);
    assert_eq!(r, Ok(500_500));
    assert_eq!(v.total_assets, 1_500_000);
    assert_eq!(v.total_shares, 1_500_500);
    // The offset and the epoch stamp are fixed by the first deposit.
    assert_eq!(v.virtual_offset, 1000);
    assert_eq!(v.epoch, 1);
    assert_eq!(v.last_roll_timestamp, 200);
}

#[test]
fn deposit_of_equal_amount_mints_more_shares_by_the_offset() {
    // Depositing A when total_assets == total_shares == A mints
    // floor(A * (A + 1000) / A) = A + 1000 shares.
    let mut v = fresh_vault();
    v.deposit(250_000, 200).unwrap();
    let r = v.deposit(250_000, 300);
    assert_eq!(r, Ok(251_000));
}

#[test]
fn deposit_zero_rejected() {
    let mut v = fresh_vault();
    assert_eq!(v.deposit(0, 200), Err(VaultError::ZeroAmount));
    assert_eq!(v.total_assets, 0);
}

#[test]
fn deposit_rejected_while_paused() {
    let mut v = fresh_vault();
    v.set_pause(authority(), true).unwrap();
    assert_eq!(v.deposit(1000, 200), Err(VaultError::VaultPaused));
    assert_eq!(v.total_assets, 0);
    v.set_pause(authority(), false).unwrap();
    assert_eq!(v.deposit(1000, 200), Ok(1000));
}

#[test]
fn deposit_rounding_to_zero_shares_rejected() {
    let mut v = fresh_vault();
    // A vault whose share price has grown far past 1: one unit converts to
    // floor(1 * 1000 / 1000000) = 0 shares.
    v.total_assets = 1_000_000;
    v.total_shares = 0;
    v.virtual_offset = 1000;
    assert_eq!(v.deposit(1, 200), Err(VaultError::ZeroShares));
    assert_eq!(v.total_assets, 1_000_000);
}

#[test]
fn deposit_with_shares_but_no_assets_rejected() {
    let mut v = fresh_vault();
    v.total_shares = 5;
    assert_eq!(v.deposit(10, 200), Err(VaultError::DivisionByZero));
    assert_eq!(v.total_shares, 5);
    assert_eq!(v.total_assets, 0);
}

#[test]
fn deposit_overflowing_effective_shares_rejected() {
    let mut v = fresh_vault();
    v.total_shares = u64::MAX;
    v.virtual_offset = 1000;
    assert_eq!(v.deposit(10, 200), Err(VaultError::Overflow));
}

#[test]
fn deposit_overflowing_total_assets_rejected() {
    let mut v = fresh_vault();
    v.deposit(u64::MAX - 100, 200).unwrap();
    assert_eq!(v.total_assets, u64::MAX - 100);
    // Another deposit overflows: total_shares + virtual_offset no longer
    // fits in 64 bits.
    assert_eq!(v.deposit(200, 300), Err(VaultError::Overflow));
    assert_eq!(v.total_assets, u64::MAX - 100);
}
