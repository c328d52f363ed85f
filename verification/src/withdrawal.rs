//! The withdrawal queue: redemption requests that span epoch boundaries and
//! their settlement.
use vstd::prelude::*;

use crate::errors::VaultError;
use crate::ledger::Vault;
use crate::AccountId;

verus! {

/// One redemption intent: shares escrowed at a given epoch, settled once the
/// vault has rolled past that epoch, then terminal.
#[derive(Clone, Copy, PartialEq, Eq, Structural, Debug)]
pub struct WithdrawalRequest {
    /// The redeeming user.
    pub user: AccountId,
    /// Shares escrowed for this request.
    pub shares: u64,
    /// The vault epoch at creation time.
    pub request_epoch: u64,
    /// Terminal flag: set once by settlement, never cleared.
    pub processed: bool,
}

/// What requesting a withdrawal of `shares` does to vault `v`.
///
/// `user_share_balance` is the requester's share balance as the collaborator
/// reports it. On success the caller owes the escrow a transfer of `shares`
/// from the user, and the new request is queued.
pub open spec fn request_withdrawal_spec(
    v: Vault,
    user: AccountId,
    user_share_balance: u64,
    shares: u64,
) -> Result<(Vault, WithdrawalRequest), VaultError> {
    if shares == 0 {
        Err(VaultError::ZeroAmount)
    } else if v.is_paused {
        Err(VaultError::VaultPaused)
    } else if user_share_balance < shares {
        Err(VaultError::InsufficientShares)
    } else if v.pending_withdrawals + shares > u64::MAX {
        Err(VaultError::Overflow)
    } else {
        Ok(
            (
                Vault { pending_withdrawals: (v.pending_withdrawals + shares) as u64, ..v },
                WithdrawalRequest { user, shares, request_epoch: v.epoch, processed: false },
            ),
        )
    }
}

/// What settling request `r` against vault `v` does.
///
/// `min_expected_amount` is the caller's slippage floor;
/// `actual_premium_balance` is the premium currency the vault really holds,
/// as the collaborator reports it, which caps the pro-rata premium claim so
/// that bookkeeping drift cannot fail the whole withdrawal. On success the
/// pair is the collateral payout and the capped premium payout, both owed to
/// the user by the caller; the escrowed shares are burned.
pub open spec fn process_withdrawal_spec(
    v: Vault,
    r: WithdrawalRequest,
    min_expected_amount: u64,
    actual_premium_balance: u64,
) -> Result<(Vault, WithdrawalRequest, u64, u64), VaultError> {
    if v.is_paused {
        Err(VaultError::VaultPaused)
    } else if r.processed {
        Err(VaultError::AlreadyProcessed)
    } else if v.epoch <= r.request_epoch {
        Err(VaultError::EpochNotSettled)
    } else if v.effective_shares() > u64::MAX {
        Err(VaultError::Overflow)
    } else if v.effective_shares() == 0 {
        Err(VaultError::DivisionByZero)
    } else {
        let amount = r.shares * v.total_assets / v.effective_shares();
        if amount > u64::MAX {
            Err(VaultError::Overflow)
        } else if amount < min_expected_amount {
            Err(VaultError::SlippageExceeded)
        } else if v.total_assets < amount {
            Err(VaultError::InsufficientVaultBalance)
        } else {
            let premium_share = if v.premium_balance_usdc > 0 {
                r.shares * v.premium_balance_usdc / v.effective_shares()
            } else {
                0
            };
            if premium_share > u64::MAX {
                Err(VaultError::Overflow)
            } else {
                let capped_premium = if premium_share <= actual_premium_balance {
                    premium_share
                } else {
                    actual_premium_balance as int
                };
                if capped_premium > v.premium_balance_usdc {
                    Err(VaultError::Overflow)
                } else if v.total_shares < r.shares {
                    Err(VaultError::Overflow)
                } else if v.pending_withdrawals < r.shares {
                    Err(VaultError::Overflow)
                } else {
                    Ok(
                        (
                            Vault {
                                total_assets: (v.total_assets - amount) as u64,
                                total_shares: (v.total_shares - r.shares) as u64,
                                pending_withdrawals: (v.pending_withdrawals - r.shares) as u64,
                                premium_balance_usdc: (v.premium_balance_usdc
                                    - capped_premium) as u64,
                                ..v
                            },
                            WithdrawalRequest { processed: true, ..r },
                            amount as u64,
                            capped_premium as u64,
                        ),
                    )
                }
            }
        }
    }
}

impl Vault {
    /// Queue a withdrawal of `shares` for `user`, stamped with the current
    /// epoch. `user_share_balance` is the user's share balance as the
    /// collaborator reports it.
    pub fn request_withdrawal(
        &mut self,
        user: AccountId,
        user_share_balance: u64,
        shares: u64,
    ) -> (r: Result<WithdrawalRequest, VaultError>)
        ensures
            (request_withdrawal_spec(*old(self), user, user_share_balance, shares) matches Ok(p)
                ==> r == Ok::<WithdrawalRequest, VaultError>(p.1) && *final(self) == p.0),
            (request_withdrawal_spec(*old(self), user, user_share_balance, shares) matches Err(e)
                ==> r == Err::<WithdrawalRequest, VaultError>(e) && *final(self) == *old(self)),
    {
        if shares == 0 {
            return Err(VaultError::ZeroAmount);
        }
        if self.is_paused {
            return Err(VaultError::VaultPaused);
        }
        if user_share_balance < shares {
            return Err(VaultError::InsufficientShares);
        }
        let new_pending = match self.pending_withdrawals.checked_add(shares) {
            Some(p) => p,
            None => {
                return Err(VaultError::Overflow);
            },
        };
        let request = WithdrawalRequest {
            user,
            shares,
            request_epoch: self.epoch,
            processed: false,
        };
        self.pending_withdrawals = new_pending;
        Ok(request)
    }

    /// Settle a queued withdrawal once the vault has rolled past the
    /// request's epoch. Returns the collateral payout and the capped
    /// pro-rata premium payout; both are owed to the user by the caller.
    pub fn process_withdrawal(
        &mut self,
        request: &mut WithdrawalRequest,
        min_expected_amount: u64,
        actual_premium_balance: u64,
    ) -> (r: Result<(u64, u64), VaultError>)
        ensures
            (process_withdrawal_spec(
                *old(self),
                *old(request),
                min_expected_amount,
                actual_premium_balance,
            ) matches Ok(p) ==> r == Ok::<(u64, u64), VaultError>((p.2, p.3)) && *final(self)
                == p.0 && *final(request) == p.1),
            (process_withdrawal_spec(
                *old(self),
                *old(request),
                min_expected_amount,
                actual_premium_balance,
            ) matches Err(e) ==> r == Err::<(u64, u64), VaultError>(e) && *final(self) == *old(self)
                && *final(request) == *old(request)),
            r is Ok ==> final(request).processed,
    {
        if self.is_paused {
            return Err(VaultError::VaultPaused);
        }
        if request.processed {
            return Err(VaultError::AlreadyProcessed);
        }
        if self.epoch <= request.request_epoch {
            return Err(VaultError::EpochNotSettled);
        }
        let shares = request.shares;
        let effective = match self.total_shares.checked_add(self.virtual_offset) {
            Some(e) => e,
            None => {
                return Err(VaultError::Overflow);
            },
        };
        if effective == 0 {
            return Err(VaultError::DivisionByZero);
        }
        assert((shares as int) * (self.total_assets as int) <= u128::MAX) by (nonlinear_arith)
            requires
                shares <= u64::MAX,
                self.total_assets <= u64::MAX,
        ;
        let scaled: u128 = (shares as u128) * (self.total_assets as u128);
        let amount_wide: u128 = scaled / (effective as u128);
        if amount_wide > u64::MAX as u128 {
            return Err(VaultError::Overflow);
        }
        let amount: u64 = amount_wide as u64;
        if amount < min_expected_amount {
            return Err(VaultError::SlippageExceeded);
        }
        if self.total_assets < amount {
            return Err(VaultError::InsufficientVaultBalance);
        }
        let capped_premium: u64;
        if self.premium_balance_usdc > 0 {
            assert((shares as int) * (self.premium_balance_usdc as int) <= u128::MAX)
                by (nonlinear_arith)
                requires
                    shares <= u64::MAX,
                    self.premium_balance_usdc <= u64::MAX,
            ;
            let premium_scaled: u128 = (shares as u128) * (self.premium_balance_usdc as u128);
            let premium_wide: u128 = premium_scaled / (effective as u128);
            if premium_wide > u64::MAX as u128 {
                return Err(VaultError::Overflow);
            }
            let premium_share: u64 = premium_wide as u64;
            capped_premium = if premium_share <= actual_premium_balance {
                premium_share
            } else {
                actual_premium_balance
            };
        } else {
            capped_premium = 0;
        }
        let new_premium_balance = match self.premium_balance_usdc.checked_sub(capped_premium) {
            Some(b) => b,
            None => {
                return Err(VaultError::Overflow);
            },
        };
        let new_shares = match self.total_shares.checked_sub(shares) {
            Some(s) => s,
            None => {
                return Err(VaultError::Overflow);
            },
        };
        let new_pending = match self.pending_withdrawals.checked_sub(shares) {
            Some(p) => p,
            None => {
                return Err(VaultError::Overflow);
            },
        };
        self.total_assets = self.total_assets - amount;
        self.total_shares = new_shares;
        self.pending_withdrawals = new_pending;
        self.premium_balance_usdc = new_premium_balance;
        request.processed = true;
        Ok((amount, capped_premium))
    }
}

} // verus!
