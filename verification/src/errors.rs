//! Why an attempted ledger operation was rejected.
//!
//! Every error is terminal for the attempted operation: nothing is retried
//! internally, and a rejected operation leaves all state untouched.
use vstd::prelude::*;

verus! {

/// The reason a ledger operation aborted.
#[derive(Clone, Copy, PartialEq, Eq, Structural, Debug)]
pub enum VaultError {
    /// An amount or share count was zero where a positive value is required.
    ZeroAmount,
    /// The computed number of shares to mint came out as zero.
    ZeroShares,
    /// The requester's share balance is smaller than the shares requested.
    InsufficientShares,
    /// The withdrawal request was already settled.
    AlreadyProcessed,
    /// The request's epoch has not been rolled past yet.
    EpochNotSettled,
    /// A checked arithmetic step overflowed (or a result left its range).
    Overflow,
    /// Recording the exposure would push the epoch total past the cap.
    ExceedsUtilizationCap,
    /// The settlement recipient is not on the whitelist.
    NotWhitelisted,
    /// The whitelist already holds its maximum number of counterparties.
    WhitelistFull,
    /// The counterparty is already on the whitelist.
    AlreadyWhitelisted,
    /// Liquidity too small for a first deposit.
    InsufficientLiquidity,
    /// Not enough time has passed since the last epoch advance.
    EpochTooShort,
    /// The premium offered for the epoch exceeds the safety cap.
    ExcessivePremium,
    /// The implied yield (premium relative to exposure) is too high.
    ExcessiveYield,
    /// The settlement exceeds the premium earned this epoch.
    ExcessiveSettlement,
    /// The vault does not hold enough collateral for the payout.
    InsufficientVaultBalance,
    /// The vault is paused.
    VaultPaused,
    /// The vault must be empty before it can be closed.
    VaultNotEmpty,
    /// The vault's derived address did not match.
    InvalidVaultPda,
    /// The payout fell below the caller's slippage floor.
    SlippageExceeded,
    /// A division had a zero divisor.
    DivisionByZero,
    /// The parameter-change timelock has not expired.
    TimelockNotExpired,
    /// Direct parameter changes are deprecated; queue a change instead.
    UseTimelockForParamChange,
    /// A proposed parameter value is out of range.
    InvalidParameter,
    /// The caller is not authorized to force-close the vault.
    UnauthorizedForceClose,
    /// The vault record still exists and blocks the cleanup.
    VaultStillExists,
    /// The token account is not owned by the expected vault.
    InvalidTokenAccountOwner,
    /// The caller is not the stored authority.
    NotAuthority,
}

} // verus!
