//! The vault ledger: collateral and share accounting, epoch counters, and the
//! exposure and yield governor.
//!
//! Each operation is specified by a total spec-level transition function of
//! the same name with a `_spec` suffix. The executable method's contract says
//! that it returns and mutates exactly what the transition prescribes: on an
//! `Ok` outcome the new state is the prescribed state, on an `Err` outcome the
//! state is unchanged.
use vstd::prelude::*;

use crate::errors::VaultError;
use crate::whitelist::VaultWhitelist;
use crate::AccountId;
use crate::BPS_DENOMINATOR;
use crate::FIRST_DEPOSIT_VIRTUAL_OFFSET;
use crate::MAX_IMPLIED_YIELD_BPS;

verus! {

/// The ledger record for one managed asset.
///
/// All balances are integer token units. `premium_balance_usdc` is tracked
/// separately from `total_assets` so that credited premium cannot silently
/// inflate the collateral share price.
pub struct Vault {
    /// Identity permitted to perform privileged operations.
    pub authority: AccountId,
    /// Stable key identifying the managed underlying asset.
    pub asset_id: String,
    /// Total collateral units held.
    pub total_assets: u64,
    /// Total claim tokens outstanding.
    pub total_shares: u64,
    /// Constant added to `total_shares` in all conversion math; set once on
    /// the first deposit, then held fixed.
    pub virtual_offset: u64,
    /// Monotonically increasing epoch counter; 0 means "not yet started".
    pub epoch: u64,
    /// Max fraction of `total_assets`, in basis points, that may be exposed
    /// as notional risk within one epoch.
    pub utilization_cap_bps: u16,
    /// Minimum seconds between epoch advances.
    pub min_epoch_duration: i64,
    /// Wall-clock time of the last epoch advance.
    pub last_roll_timestamp: i64,
    /// Sum of shares currently queued for redemption.
    pub pending_withdrawals: u64,
    /// Notional exposure recorded so far this epoch.
    pub epoch_notional_exposed: u64,
    /// Premium earned so far this epoch.
    pub epoch_premium_earned: u64,
    /// Running average premium rate this epoch, in basis points.
    pub epoch_premium_per_token_bps: u32,
    /// Settlement-currency balance available for pro-rata distribution.
    pub premium_balance_usdc: u64,
    /// Emergency brake: blocks deposits, new withdrawal requests, and
    /// withdrawal processing.
    pub is_paused: bool,
    /// Staged epoch-duration change awaiting the timelock (0 when none).
    pub pending_min_epoch_duration: i64,
    /// Staged utilization-cap change awaiting the timelock (0 when none).
    pub pending_utilization_cap: u16,
    /// Time at which staged parameter changes unlock (0 when none staged).
    pub param_change_unlock_time: i64,
}

impl Vault {
    /// The denominator of all share-price conversion math.
    pub open spec fn effective_shares(self) -> int {
        self.total_shares + self.virtual_offset
    }

    /// Most notional exposure the current collateral and cap allow per epoch.
    pub open spec fn max_exposure(self) -> int {
        self.total_assets * self.utilization_cap_bps / (BPS_DENOMINATOR as int)
    }

    /// Create the ledger for one asset. Counters start at zero, the epoch is
    /// not yet started, and `now` stamps the roll clock.
    pub fn initialize_vault(
        authority: AccountId,
        asset_id: String,
        utilization_cap_bps: u16,
        min_epoch_duration: i64,
        now: i64,
    ) -> (v: Vault)
        ensures
            v == (Vault {
                authority,
                asset_id,
                total_assets: 0u64,
                total_shares: 0u64,
                virtual_offset: 0u64,
                epoch: 0u64,
                utilization_cap_bps,
                min_epoch_duration,
                last_roll_timestamp: now,
                pending_withdrawals: 0u64,
                epoch_notional_exposed: 0u64,
                epoch_premium_earned: 0u64,
                epoch_premium_per_token_bps: 0u32,
                premium_balance_usdc: 0u64,
                is_paused: false,
                pending_min_epoch_duration: 0i64,
                pending_utilization_cap: 0u16,
                param_change_unlock_time: 0i64,
            }),
    {
        Vault {
            authority,
            asset_id,
            total_assets: 0,
            total_shares: 0,
            virtual_offset: 0,
            epoch: 0,
            utilization_cap_bps,
            min_epoch_duration,
            last_roll_timestamp: now,
            pending_withdrawals: 0,
            epoch_notional_exposed: 0,
            epoch_premium_earned: 0,
            epoch_premium_per_token_bps: 0,
            premium_balance_usdc: 0,
            is_paused: false,
            pending_min_epoch_duration: 0,
            pending_utilization_cap: 0,
            param_change_unlock_time: 0,
        }
    }
}

/// What a deposit of `amount` at time `now` does to vault `v`.
///
/// On success, the new state and the number of shares minted to the
/// depositor. The caller owes the vault a transfer of `amount` collateral
/// and owes the depositor a mint of the returned shares.
pub open spec fn deposit_spec(v: Vault, amount: u64, now: i64) -> Result<(Vault, u64), VaultError> {
    if amount == 0 {
        Err(VaultError::ZeroAmount)
    } else if v.is_paused {
        Err(VaultError::VaultPaused)
    } else if v.effective_shares() > u64::MAX {
        Err(VaultError::Overflow)
    } else {
        let first_deposit = v.effective_shares() == 0;
        if !first_deposit && v.total_assets == 0 {
            Err(VaultError::DivisionByZero)
        } else {
            let shares = if first_deposit {
                amount as int
            } else {
                amount * v.effective_shares() / (v.total_assets as int)
            };
            if shares > u64::MAX {
                Err(VaultError::Overflow)
            } else if shares == 0 {
                Err(VaultError::ZeroShares)
            } else if v.total_assets + amount > u64::MAX {
                Err(VaultError::Overflow)
            } else if v.total_shares + shares > u64::MAX {
                Err(VaultError::Overflow)
            } else {
                let new_assets = (v.total_assets + amount) as u64;
                let epoch_starts = v.epoch == 0 && new_assets > 0;
                Ok((
                    Vault {
                        total_assets: new_assets,
                        total_shares: (v.total_shares + shares) as u64,
                        virtual_offset: if first_deposit {
                            FIRST_DEPOSIT_VIRTUAL_OFFSET
                        } else {
                            v.virtual_offset
                        },
                        epoch: if epoch_starts {
                            1u64
                        } else {
                            v.epoch
                        },
                        last_roll_timestamp: if epoch_starts {
                            now
                        } else {
                            v.last_roll_timestamp
                        },
                        ..v
                    },
                    shares as u64,
                ))
            }
        }
    }
}

impl Vault {
    /// Deposit `amount` collateral units and mint shares for them.
    ///
    /// The very first deposit mints shares 1:1 and fixes the virtual offset;
    /// later deposits mint `floor(amount * effective_shares / total_assets)`.
    /// A first successful deposit also starts epoch 1, stamping `now`.
    pub fn deposit(&mut self, amount: u64, now: i64) -> (r: Result<u64, VaultError>)
        ensures
            (deposit_spec(*old(self), amount, now) matches Ok(p) ==> r == Ok::<u64, VaultError>(
                p.1,
            ) && *final(self) == p.0),
            (deposit_spec(*old(self), amount, now) matches Err(e) ==> r == Err::<u64, VaultError>(
                e,
            ) && *final(self) == *old(self)),
            r is Ok ==> final(self).total_assets == old(self).total_assets + amount,
    {
        if amount == 0 {
            return Err(VaultError::ZeroAmount);
        }
        if self.is_paused {
            return Err(VaultError::VaultPaused);
        }
        let effective = match self.total_shares.checked_add(self.virtual_offset) {
            Some(e) => e,
            None => {
                return Err(VaultError::Overflow);
            },
        };
        let first_deposit = effective == 0;
        let shares_to_mint: u64;
        if first_deposit {
            shares_to_mint = amount;
        } else {
            if self.total_assets == 0 {
                return Err(VaultError::DivisionByZero);
            }
            assert((amount as int) * (effective as int) <= u128::MAX) by (nonlinear_arith)
                requires
                    amount <= u64::MAX,
                    effective <= u64::MAX,
            ;
            let scaled: u128 = (amount as u128) * (effective as u128);
            let quotient: u128 = scaled / (self.total_assets as u128);
            if quotient > u64::MAX as u128 {
                return Err(VaultError::Overflow);
            }
            shares_to_mint = quotient as u64;
        }
        if shares_to_mint == 0 {
            return Err(VaultError::ZeroShares);
        }
        let new_assets = match self.total_assets.checked_add(amount) {
            Some(a) => a,
            None => {
                return Err(VaultError::Overflow);
            },
        };
        let new_shares = match self.total_shares.checked_add(shares_to_mint) {
            Some(s) => s,
            None => {
                return Err(VaultError::Overflow);
            },
        };
        if first_deposit {
            self.virtual_offset = FIRST_DEPOSIT_VIRTUAL_OFFSET;
        }
        self.total_assets = new_assets;
        self.total_shares = new_shares;
        if self.epoch == 0 && self.total_assets > 0 {
            self.epoch = 1;
            self.last_roll_timestamp = now;
        }
        Ok(shares_to_mint)
    }
}

/// What an epoch advance with `premium_earned` at time `now`, attempted by
/// `caller`, does to vault `v`.
///
/// The advance is gated: a minimum duration since the last roll, premium at
/// most half of the collateral, and an implied yield (premium relative to the
/// epoch's exposure) of at most `MAX_IMPLIED_YIELD_BPS`; with zero exposure
/// only a zero premium passes. On success the premium is credited to the
/// separate premium pool, the epoch increments, and the per-epoch counters
/// reset.
pub open spec fn advance_epoch_spec(v: Vault, caller: AccountId, premium_earned: u64, now: i64) -> Result<
    Vault,
    VaultError,
> {
    if caller != v.authority {
        Err(VaultError::NotAuthority)
    } else if (now as int) < v.last_roll_timestamp + v.min_epoch_duration {
        Err(VaultError::EpochTooShort)
    } else if premium_earned > v.total_assets / 2 {
        Err(VaultError::ExcessivePremium)
    } else if v.epoch_notional_exposed > 0 && premium_earned * BPS_DENOMINATOR
        / (v.epoch_notional_exposed as int) > MAX_IMPLIED_YIELD_BPS {
        Err(VaultError::ExcessiveYield)
    } else if v.epoch_notional_exposed == 0 && premium_earned != 0 {
        Err(VaultError::ExcessivePremium)
    } else if v.premium_balance_usdc + premium_earned > u64::MAX {
        Err(VaultError::Overflow)
    } else if v.epoch + 1 > u64::MAX {
        Err(VaultError::Overflow)
    } else {
        Ok(
            Vault {
                premium_balance_usdc: (v.premium_balance_usdc + premium_earned) as u64,
                epoch: (v.epoch + 1) as u64,
                last_roll_timestamp: now,
                epoch_notional_exposed: 0u64,
                epoch_premium_earned: 0u64,
                epoch_premium_per_token_bps: 0u32,
                ..v
            },
        )
    }
}

/// What recording `(notional, premium)` by `caller` does to vault `v`.
///
/// The new exposure must stay within `max_exposure()`; on success the epoch
/// counters grow and the running average premium rate is recomputed.
pub open spec fn record_notional_exposure_spec(
    v: Vault,
    caller: AccountId,
    notional: u64,
    premium: u64,
) -> Result<Vault, VaultError> {
    if caller != v.authority {
        Err(VaultError::NotAuthority)
    } else if v.max_exposure() > u64::MAX {
        Err(VaultError::Overflow)
    } else if v.epoch_notional_exposed + notional > u64::MAX {
        Err(VaultError::Overflow)
    } else if v.epoch_notional_exposed + notional > v.max_exposure() {
        Err(VaultError::ExceedsUtilizationCap)
    } else if v.epoch_premium_earned + premium > u64::MAX {
        Err(VaultError::Overflow)
    } else {
        let new_exposure = (v.epoch_notional_exposed + notional) as u64;
        let new_premium = (v.epoch_premium_earned + premium) as u64;
        let new_rate = new_premium * BPS_DENOMINATOR / (new_exposure as int);
        if new_exposure > 0 && new_rate > u32::MAX {
            Err(VaultError::Overflow)
        } else {
            Ok(
                Vault {
                    epoch_notional_exposed: new_exposure,
                    epoch_premium_earned: new_premium,
                    epoch_premium_per_token_bps: if new_exposure > 0 {
                        new_rate as u32
                    } else {
                        v.epoch_premium_per_token_bps
                    },
                    ..v
                },
            )
        }
    }
}

impl Vault {
    /// Advance to the next epoch, crediting `premium_earned` to the premium
    /// pool. Authority-only; `now` is the caller's wall-clock reading.
    pub fn advance_epoch(&mut self, caller: AccountId, premium_earned: u64, now: i64) -> (r: Result<
        (),
        VaultError,
    >)
        ensures
            (advance_epoch_spec(*old(self), caller, premium_earned, now) matches Ok(v2) ==> r
                == Ok::<(), VaultError>(()) && *final(self) == v2),
            (advance_epoch_spec(*old(self), caller, premium_earned, now) matches Err(e) ==> r
                == Err::<(), VaultError>(e) && *final(self) == *old(self)),
            r is Ok ==> final(self).epoch == old(self).epoch + 1,
    {
        if caller != self.authority {
            return Err(VaultError::NotAuthority);
        }
        if (now as i128) < (self.last_roll_timestamp as i128) + (self.min_epoch_duration as i128) {
            return Err(VaultError::EpochTooShort);
        }
        if premium_earned > self.total_assets / 2 {
            return Err(VaultError::ExcessivePremium);
        }
        if self.epoch_notional_exposed > 0 {
            let yield_bps: u128 = (premium_earned as u128) * (BPS_DENOMINATOR as u128) / (
            self.epoch_notional_exposed as u128);
            if yield_bps > MAX_IMPLIED_YIELD_BPS as u128 {
                return Err(VaultError::ExcessiveYield);
            }
        } else {
            if premium_earned != 0 {
                return Err(VaultError::ExcessivePremium);
            }
        }
        let new_premium_balance = match self.premium_balance_usdc.checked_add(premium_earned) {
            Some(b) => b,
            None => {
                return Err(VaultError::Overflow);
            },
        };
        let new_epoch = match self.epoch.checked_add(1) {
            Some(e) => e,
            None => {
                return Err(VaultError::Overflow);
            },
        };
        self.premium_balance_usdc = new_premium_balance;
        self.epoch = new_epoch;
        self.last_roll_timestamp = now;
        self.epoch_notional_exposed = 0;
        self.epoch_premium_earned = 0;
        self.epoch_premium_per_token_bps = 0;
        Ok(())
    }

    /// Record notional exposure and the premium agreed for it, keeping the
    /// epoch's exposure within the utilization cap. Authority-only.
    pub fn record_notional_exposure(
        &mut self,
        caller: AccountId,
        notional: u64,
        premium: u64,
    ) -> (r: Result<(), VaultError>)
        ensures
            (record_notional_exposure_spec(*old(self), caller, notional, premium) matches Ok(v2)
                ==> r == Ok::<(), VaultError>(()) && *final(self) == v2),
            (record_notional_exposure_spec(*old(self), caller, notional, premium) matches Err(e)
                ==> r == Err::<(), VaultError>(e) && *final(self) == *old(self)),
            r is Ok ==> final(self).epoch_notional_exposed <= final(self).max_exposure(),
    {
        if caller != self.authority {
            return Err(VaultError::NotAuthority);
        }
        assert((self.total_assets as int) * (self.utilization_cap_bps as int) <= u128::MAX)
            by (nonlinear_arith)
            requires
                self.total_assets <= u64::MAX,
                self.utilization_cap_bps <= u16::MAX,
        ;
        let max_exposure_wide: u128 = (self.total_assets as u128) * (self.utilization_cap_bps
            as u128) / (BPS_DENOMINATOR as u128);
        if max_exposure_wide > u64::MAX as u128 {
            return Err(VaultError::Overflow);
        }
        let max_exposure: u64 = max_exposure_wide as u64;
        let new_exposure = match self.epoch_notional_exposed.checked_add(notional) {
            Some(e) => e,
            None => {
                return Err(VaultError::Overflow);
            },
        };
        if new_exposure > max_exposure {
            return Err(VaultError::ExceedsUtilizationCap);
        }
        let new_premium = match self.epoch_premium_earned.checked_add(premium) {
            Some(p) => p,
            None => {
                return Err(VaultError::Overflow);
            },
        };
        if new_exposure > 0 {
            let rate: u128 = (new_premium as u128) * (BPS_DENOMINATOR as u128) / (new_exposure
                as u128);
            if rate > u32::MAX as u128 {
                return Err(VaultError::Overflow);
            }
            self.epoch_premium_per_token_bps = rate as u32;
        }
        self.epoch_notional_exposed = new_exposure;
        self.epoch_premium_earned = new_premium;
        Ok(())
    }
}

/// What collecting `amount` of premium currency does to vault `v`.
///
/// The actual currency movement from the payer to the vault's premium
/// holding is the collaborator's; the ledger records the income so that the
/// next epoch advance validates it.
pub open spec fn collect_premium_spec(v: Vault, caller: AccountId, amount: u64) -> Result<
    Vault,
    VaultError,
> {
    if caller != v.authority {
        Err(VaultError::NotAuthority)
    } else if amount == 0 {
        Err(VaultError::ZeroAmount)
    } else if v.epoch_premium_earned + amount > u64::MAX {
        Err(VaultError::Overflow)
    } else {
        Ok(Vault { epoch_premium_earned: (v.epoch_premium_earned + amount) as u64, ..v })
    }
}

/// Whether paying `amount` of settlement to `recipient` is allowed: the
/// recipient must be whitelisted and the amount within the premium earned
/// this epoch. The payout itself does not change the ledger.
pub open spec fn pay_settlement_allowed(
    v: Vault,
    whitelist: VaultWhitelist,
    caller: AccountId,
    recipient: AccountId,
    amount: u64,
) -> Result<(), VaultError> {
    if caller != v.authority {
        Err(VaultError::NotAuthority)
    } else if amount == 0 {
        Err(VaultError::ZeroAmount)
    } else if !whitelist.market_makers@.contains(recipient) {
        Err(VaultError::NotWhitelisted)
    } else if amount > v.epoch_premium_earned {
        Err(VaultError::ExcessiveSettlement)
    } else {
        Ok(())
    }
}

impl Vault {
    /// Record premium income of `amount` collected from a payer.
    /// Authority-cosigned, so nobody can front-run collection to distort the
    /// settlement math.
    pub fn collect_premium(&mut self, caller: AccountId, amount: u64) -> (r: Result<
        (),
        VaultError,
    >)
        ensures
            (collect_premium_spec(*old(self), caller, amount) matches Ok(v2) ==> r == Ok::<
                (),
                VaultError,
            >(()) && *final(self) == v2),
            (collect_premium_spec(*old(self), caller, amount) matches Err(e) ==> r == Err::<
                (),
                VaultError,
            >(e) && *final(self) == *old(self)),
    {
        if caller != self.authority {
            return Err(VaultError::NotAuthority);
        }
        if amount == 0 {
            return Err(VaultError::ZeroAmount);
        }
        let new_premium = match self.epoch_premium_earned.checked_add(amount) {
            Some(p) => p,
            None => {
                return Err(VaultError::Overflow);
            },
        };
        self.epoch_premium_earned = new_premium;
        Ok(())
    }

    /// Validate a settlement payout of `amount` to `recipient`. On `Ok` the
    /// caller owes the recipient a transfer of `amount` out of the vault's
    /// premium holding; the ledger itself does not change. Authority-only.
    pub fn pay_settlement(
        &self,
        whitelist: &VaultWhitelist,
        caller: AccountId,
        recipient: AccountId,
        amount: u64,
    ) -> (r: Result<(), VaultError>)
        ensures
            r == pay_settlement_allowed(*self, *whitelist, caller, recipient, amount),
    {
        if caller != self.authority {
            return Err(VaultError::NotAuthority);
        }
        if amount == 0 {
            return Err(VaultError::ZeroAmount);
        }
        if !whitelist.is_whitelisted(recipient) {
            return Err(VaultError::NotWhitelisted);
        }
        if amount > self.epoch_premium_earned {
            return Err(VaultError::ExcessiveSettlement);
        }
        Ok(())
    }

    /// Overwrite the recorded premium balance with `actual_balance`, the
    /// collaborator's authoritative on-hand figure, to recover from
    /// bookkeeping drift. Authority-only.
    pub fn reconcile_premium_balance(&mut self, caller: AccountId, actual_balance: u64) -> (r:
        Result<(), VaultError>)
        ensures
            caller != old(self).authority ==> r == Err::<(), VaultError>(VaultError::NotAuthority)
                && *final(self) == *old(self),
            caller == old(self).authority ==> r == Ok::<(), VaultError>(()) && *final(self) == (
            Vault { premium_balance_usdc: actual_balance, ..*old(self) }),
    {
        if caller != self.authority {
            return Err(VaultError::NotAuthority);
        }
        self.premium_balance_usdc = actual_balance;
        Ok(())
    }

    /// Whether the vault may be closed: it must hold no collateral, no
    /// outstanding shares, no queued withdrawals, and no open exposure.
    /// Authority-only; reclaiming the storage itself is the substrate's job.
    pub fn close_vault(&self, caller: AccountId) -> (r: Result<(), VaultError>)
        ensures
            caller != self.authority ==> r == Err::<(), VaultError>(VaultError::NotAuthority),
            caller == self.authority && !(self.total_assets == 0 && self.total_shares == 0
                && self.pending_withdrawals == 0 && self.epoch_notional_exposed == 0) ==> r
                == Err::<(), VaultError>(VaultError::VaultNotEmpty),
            caller == self.authority && self.total_assets == 0 && self.total_shares == 0
                && self.pending_withdrawals == 0 && self.epoch_notional_exposed == 0 ==> r == Ok::<
                (),
                VaultError,
            >(()),
    {
        if caller != self.authority {
            return Err(VaultError::NotAuthority);
        }
        if self.total_assets != 0 {
            return Err(VaultError::VaultNotEmpty);
        }
        if self.total_shares != 0 {
            return Err(VaultError::VaultNotEmpty);
        }
        if self.pending_withdrawals != 0 {
            return Err(VaultError::VaultNotEmpty);
        }
        if self.epoch_notional_exposed != 0 {
            return Err(VaultError::VaultNotEmpty);
        }
        Ok(())
    }
}

} // verus!
