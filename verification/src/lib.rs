//! A share-based vault accounting and epoch-settlement engine.
//!
//! The ledger accepts deposits of a collateral asset, issues redeemable claim
//! tokens ("shares") against it, tracks notional exposure within discrete
//! epochs, caps the yield credited per epoch, and settles queued withdrawals
//! with slippage protection and pro-rata distribution of a separately tracked
//! premium pool. Every operation is a single atomic transition: it either
//! commits all of its writes or leaves the state untouched, using only
//! integer, overflow-checked arithmetic.
//!
//! Moving real balances (collateral, shares, premium currency) is the job of
//! an external value-transfer collaborator; the ledger only decides what must
//! move and records the outcome. Callers hand the ledger plain values (current
//! timestamps, externally held balances) and perform the transfers that a
//! successful operation calls for.
use vstd::prelude::*;

pub mod admin;
pub mod errors;
pub mod laws;
pub mod ledger;
pub mod whitelist;
pub mod withdrawal;

verus! {

/// Identity of an account: an authority, a depositor, or a counterparty.
///
/// The execution substrate that verifies signing authority is external; the
/// ledger only compares identities for equality.
#[derive(Clone, Copy, PartialEq, Eq, Structural, Debug, Hash)]
pub struct AccountId {
    pub id: u64,
}

/// Virtual shares added to `total_shares` on the very first deposit, fixing
/// the conversion denominator against first-depositor price manipulation.
pub const FIRST_DEPOSIT_VIRTUAL_OFFSET: u64 = 1000;

/// Denominator for basis-point fractions.
pub const BPS_DENOMINATOR: u64 = 10000;

/// Highest implied yield (premium relative to exposure, in basis points) that
/// an epoch advance accepts.
pub const MAX_IMPLIED_YIELD_BPS: u64 = 2000;

/// Seconds a queued parameter change must wait before it can be executed.
pub const PARAM_TIMELOCK_SECONDS: i64 = 86400;

/// Most counterparties the whitelist can hold.
pub const MAX_WHITELIST_LEN: usize = 10;

} // verus!
