use vault::errors::VaultError;
use vault::ledger::Vault;
use vault::withdrawal::WithdrawalRequest;
use vault::AccountId;

fn authority() -> AccountId {
    AccountId { id: 7 }
}

fn user() -> AccountId {
    AccountId { id: 21 }
}

fn vault_with_deposit() -> Vault {
    let mut v = Vault::initialize_vault(authority(), String::from("xSTOCK"), 5000, 3600, 100);
    v.deposit(1_000_000, 200).unwrap();
    v
}

#[test]
fn request_withdrawal_queues_shares() {
    let mut v = vault_with_deposit();
    let r = v.request_withdrawal(user(), 1_000_000, 100_000).unwrap();
    assert_eq!(r.user, user());
    assert_eq!(r.shares, 100_000);
    assert_eq!(r.request_epoch, 1);
    assert!(!r.processed);
    assert_eq!(v.pending_withdrawals, 100_000);
}

#[test]
fn request_withdrawal_rejections() {
    let mut v = vault_with_deposit();
    assert_eq!(
        v.request_withdrawal(user(), 1_000_000, 0),
        Err(VaultError::ZeroAmount)
    );
    assert_eq!(
        v.request_withdrawal(user(), 99_999, 100_000),
        Err(VaultError::InsufficientShares)
    );
    v.set_pause(authority(), true).unwrap();
    assert_eq!(
        v.request_withdrawal(user(), 1_000_000, 100_000),
        Err(VaultError::VaultPaused)
    );
    assert_eq!(v.pending_withdrawals, 0);
}

#[test]
fn withdrawal_waits_for_the_epoch_to_settle() {
    let mut v = vault_with_deposit();
    let mut r = v.request_withdrawal(user(), 1_000_000, 100_000).unwrap();

    // Still in the request's epoch: not settled yet.
    let attempt = v.process_withdrawal(&mut r, 0, 0);
    assert_eq!(attempt, Err(VaultError::EpochNotSettled));
    assert!(!r.processed);

    v.advance_epoch(authority(), 0, 4000).unwrap();
    assert_eq!(v.epoch, 2);

    // amount = floor(100000 * 1000000 / 1001000) = 99900.
    let (amount, premium) = v.process_withdrawal(&mut r, 0, 0).unwrap();
    assert_eq!(amount, 99_900);
    assert_eq!(premium, 0);
    assert!(r.processed);
    assert_eq!(v.total_assets, 900_100);
    assert_eq!(v.total_shares, 900_000);
    assert_eq!(v.pending_withdrawals, 0);
}

#[test]
fn withdrawal_claims_capped_pro_rata_premium() {
    let mut v = vault_with_deposit();
    let mut r = v.request_withdrawal(user(), 1_000_000, 100_000).unwrap();
    v.record_notional_exposure(authority(), 500_000, 0).unwrap();
    v.advance_epoch(authority(), 50_000, 4000).unwrap();
    assert_eq!(v.premium_balance_usdc, 50_000);

    // Pro-rata claim: floor(100000 * 50000 / 1001000) = 4995, fully backed
    // by the reported on-hand balance.
    let (amount, premium) = v.process_withdrawal(&mut r, 0, 50_000).unwrap();
    assert_eq!(amount, 99_900);
    assert_eq!(premium, 4995);
    assert_eq!(v.premium_balance_usdc, 45_005);
}

#[test]
fn withdrawal_premium_capped_by_reported_balance() {
    let mut v = vault_with_deposit();
    let mut r = v.request_withdrawal(user(), 1_000_000, 100_000).unwrap();
    v.record_notional_exposure(authority(), 500_000, 0).unwrap();
    v.advance_epoch(authority(), 50_000, 4000).unwrap();

    // The collaborator reports only 1000 on hand: the claim of 4995 is
    // capped instead of failing the withdrawal.
    let (amount, premium) = v.process_withdrawal(&mut r, 0, 1000).unwrap();
    assert_eq!(amount, 99_900);
    assert_eq!(premium, 1000);
    assert_eq!(v.premium_balance_usdc, 49_000);
}

#[test]
fn settlement_is_idempotent() {
    let mut v = vault_with_deposit();
    let mut r = v.request_withdrawal(user(), 1_000_000, 100_000).unwrap();
    v.advance_epoch(authority(), 0, 4000).unwrap();

    assert!(v.process_withdrawal(&mut r, 0, 0).is_ok());
    let assets_after_first = v.total_assets;

    // The same request cannot pay out twice.
    let second = v.process_withdrawal(&mut r, 0, 0);
    assert_eq!(second, Err(VaultError::AlreadyProcessed));
    assert_eq!(v.total_assets, assets_after_first);
    assert!(r.processed);
}

#[test]
fn withdrawal_below_slippage_floor_rejected() {
    let mut v = vault_with_deposit();
    let mut r = v.request_withdrawal(user(), 1_000_000, 100_000).unwrap();
    v.advance_epoch(authority(), 0, 4000).unwrap();

    let attempt = v.process_withdrawal(&mut r, 99_901, 0);
    assert_eq!(attempt, Err(VaultError::SlippageExceeded));
    assert!(!r.processed);
    assert_eq!(v.total_assets, 1_000_000);

    // Retrying with a floor at the computed amount succeeds.
    assert_eq!(v.process_withdrawal(&mut r, 99_900, 0), Ok((99_900, 0)));
}

#[test]
fn withdrawal_blocked_while_paused() {
    let mut v = vault_with_deposit();
    let mut r = v.request_withdrawal(user(), 1_000_000, 100_000).unwrap();
    v.advance_epoch(authority(), 0, 4000).unwrap();
    v.set_pause(authority(), true).unwrap();

    assert_eq!(v.process_withdrawal(&mut r, 0, 0), Err(VaultError::VaultPaused));
    assert!(!r.processed);
}

#[test]
fn withdrawal_exceeding_vault_balance_rejected() {
    // A request for more shares than the conversion can back: shares well
    // above total_shares make the payout formula exceed the collateral.
    let mut v = Vault::initialize_vault(authority(), String::from("xSTOCK"), 5000, 3600, 100);
    v.total_assets = 100;
    v.total_shares = 10;
    v.epoch = 1;
    let mut r = WithdrawalRequest {
        user: user(),
        shares: 50,
        request_epoch: 0,
        processed: false,
    };
    // amount = floor(50 * 100 / 10) = 500 > 100 held.
    assert_eq!(
        v.process_withdrawal(&mut r, 0, 0),
        Err(VaultError::InsufficientVaultBalance)
    );
    assert!(!r.processed);
    assert_eq!(v.total_assets, 100);
}

#[test]
fn withdrawal_with_no_effective_shares_rejected() {
    let mut v = Vault::initialize_vault(authority(), String::from("xSTOCK"), 5000, 3600, 100);
    v.epoch = 1;
    let mut r = WithdrawalRequest {
        user: user(),
        shares: 5,
        request_epoch: 0,
        processed: false,
    };
    assert_eq!(v.process_withdrawal(&mut r, 0, 0), Err(VaultError::DivisionByZero));
}

#[test]
fn collateral_is_conserved_over_deposits_and_withdrawals() {
    let mut v = Vault::initialize_vault(authority(), String::from("xSTOCK"), 5000, 3600, 100);
    let mut deposited: u64 = 0;
    let mut withdrawn: u64 = 0;

    deposited += 1_000_000;
    v.deposit(1_000_000, 200).unwrap();
    deposited += 500_000;
    v.deposit(500_000, 300).unwrap();

    let mut r = v.request_withdrawal(user(), 1_500_500, 200_000).unwrap();
    v.advance_epoch(authority(), 0, 4000).unwrap();
    let (amount, _) = v.process_withdrawal(&mut r, 0, 0).unwrap();
    withdrawn += amount;

    deposited += 40_000;
    v.deposit(40_000, 5000).unwrap();

    let mut r2 = v.request_withdrawal(user(), 1_300_500, 70_000).unwrap();
    v.advance_epoch(authority(), 0, 8000).unwrap();
    let (amount2, _) = v.process_withdrawal(&mut r2, 0, 0).unwrap();
    withdrawn += amount2;

    assert_eq!(v.total_assets, deposited - withdrawn);
}
