use vault::errors::VaultError;
use vault::ledger::Vault;
use vault::whitelist::VaultWhitelist;
use vault::AccountId;

fn authority() -> AccountId {
    AccountId { id: 7 }
}

fn outsider() -> AccountId {
    AccountId { id: 8 }
}

fn funded_vault() -> Vault {
    let mut v = Vault::initialize_vault(authority(), String::from("xSTOCK"), 5000, 3600, 100);
    v.deposit(1_000_000, 200).unwrap();
    v.deposit(500_000, 300).unwrap();
    v
}

#[test]
fn record_exposure_within_cap_succeeds() {
    // max_exposure = 1,500,000 * 5000 / 10000 = 750,000
    let mut v = funded_vault();
    let r = v.record_notional_exposure(authority(), 700_000, 1000);
    assert_eq!(r, Ok(()));
    assert_eq!(v.epoch_notional_exposed, 700_000);
    assert_eq!(v.epoch_premium_earned, 1000);
    // Running average rate: floor(1000 * 10000 / 700000) = 14 bps.
    assert_eq!(v.epoch_premium_per_token_bps, 14);
}

#[test]
fn record_exposure_beyond_cap_rejected_without_state_change() {
    let mut v = funded_vault();
    v.record_notional_exposure(authority(), 700_000, 1000).unwrap();
    // 700,000 + 60,000 = 760,000 > 750,000.
    let r = v.record_notional_exposure(authority(), 60_000, 500);
    assert_eq!(r, Err(VaultError::ExceedsUtilizationCap));
    assert_eq!(v.epoch_notional_exposed, 700_000);
    assert_eq!(v.epoch_premium_earned, 1000);
    assert_eq!(v.epoch_premium_per_token_bps, 14);
}

#[test]
fn record_exposure_requires_authority() {
    let mut v = funded_vault();
    let r = v.record_notional_exposure(outsider(), 1000, 10);
    assert_eq!(r, Err(VaultError::NotAuthority));
    assert_eq!(v.epoch_notional_exposed, 0);
}

#[test]
fn record_exposure_on_empty_vault_rejected() {
    // max_exposure of an empty vault is 0: any notional exceeds it.
    let mut v = Vault::initialize_vault(authority(), String::from("xSTOCK"), 5000, 3600, 100);
    let r = v.record_notional_exposure(authority(), 1, 0);
    assert_eq!(r, Err(VaultError::ExceedsUtilizationCap));
}

#[test]
fn advance_epoch_credits_premium_and_resets_counters() {
    let mut v = funded_vault();
    v.record_notional_exposure(authority(), 700_000, 1000).unwrap();
    v.collect_premium(authority(), 99_000).unwrap();
    assert_eq!(v.epoch_premium_earned, 100_000);
    // Implied yield: 100000 * 10000 / 700000 = 1428 bps <= 2000.
    let r = v.advance_epoch(authority(), 100_000, 4000);
    assert_eq!(r, Ok(()));
    assert_eq!(v.epoch, 2);
    assert_eq!(v.premium_balance_usdc, 100_000);
    assert_eq!(v.last_roll_timestamp, 4000);
    assert_eq!(v.epoch_notional_exposed, 0);
    assert_eq!(v.epoch_premium_earned, 0);
    assert_eq!(v.epoch_premium_per_token_bps, 0);
    // The premium pool is kept apart from the collateral.
    assert_eq!(v.total_assets, 1_500_000);
}

#[test]
fn advance_epoch_requires_authority() {
    let mut v = funded_vault();
    assert_eq!(v.advance_epoch(outsider(), 0, 4000), Err(VaultError::NotAuthority));
    assert_eq!(v.epoch, 1);
}

#[test]
fn advance_epoch_too_soon_rejected() {
    let mut v = funded_vault();
    // The first deposit stamped last_roll_timestamp = 200; min duration 3600.
    assert_eq!(v.advance_epoch(authority(), 0, 3799), Err(VaultError::EpochTooShort));
    assert_eq!(v.advance_epoch(authority(), 0, 3800), Ok(()));
}

#[test]
fn advance_epoch_premium_above_half_of_collateral_rejected() {
    let mut v = funded_vault();
    v.record_notional_exposure(authority(), 700_000, 0).unwrap();
    // 750,001 > 1,500,000 / 2.
    let r = v.advance_epoch(authority(), 750_001, 4000);
    assert_eq!(r, Err(VaultError::ExcessivePremium));
    assert_eq!(v.epoch, 1);
    assert_eq!(v.premium_balance_usdc, 0);
}

#[test]
fn advance_epoch_excessive_yield_rejected_with_counters_unchanged() {
    let mut v = funded_vault();
    v.record_notional_exposure(authority(), 1000, 0).unwrap();
    // Implied yield: 201 * 10000 / 1000 = 2010 bps > 2000.
    let r = v.advance_epoch(authority(), 201, 4000);
    assert_eq!(r, Err(VaultError::ExcessiveYield));
    assert_eq!(v.epoch, 1);
    assert_eq!(v.epoch_notional_exposed, 1000);
    assert_eq!(v.premium_balance_usdc, 0);
    // 200 * 10000 / 1000 = 2000 bps is the highest yield accepted.
    assert_eq!(v.advance_epoch(authority(), 200, 4000), Ok(()));
    assert_eq!(v.premium_balance_usdc, 200);
}

#[test]
fn advance_epoch_with_no_exposure_accepts_only_zero_premium() {
    let mut v = funded_vault();
    assert_eq!(v.advance_epoch(authority(), 1, 4000), Err(VaultError::ExcessivePremium));
    assert_eq!(v.advance_epoch(authority(), 0, 4000), Ok(()));
    assert_eq!(v.epoch, 2);
}

#[test]
fn collect_premium_records_income() {
    let mut v = funded_vault();
    assert_eq!(v.collect_premium(authority(), 500), Ok(()));
    assert_eq!(v.epoch_premium_earned, 500);
    assert_eq!(v.collect_premium(authority(), 0), Err(VaultError::ZeroAmount));
    assert_eq!(v.collect_premium(outsider(), 500), Err(VaultError::NotAuthority));
    assert_eq!(v.epoch_premium_earned, 500);
}

#[test]
fn pay_settlement_requires_whitelisted_recipient_within_earned_premium() {
    let mut v = funded_vault();
    v.collect_premium(authority(), 10_000).unwrap();
    let mut wl = VaultWhitelist::initialize_whitelist(authority());
    let maker = AccountId { id: 55 };

    assert_eq!(
        v.pay_settlement(&wl, authority(), maker, 4000),
        Err(VaultError::NotWhitelisted)
    );
    wl.add_market_maker(authority(), maker).unwrap();
    assert_eq!(
        v.pay_settlement(&wl, outsider(), maker, 4000),
        Err(VaultError::NotAuthority)
    );
    assert_eq!(
        v.pay_settlement(&wl, authority(), maker, 0),
        Err(VaultError::ZeroAmount)
    );
    assert_eq!(
        v.pay_settlement(&wl, authority(), maker, 10_001),
        Err(VaultError::ExcessiveSettlement)
    );
    assert_eq!(v.pay_settlement(&wl, authority(), maker, 10_000), Ok(()));
}
