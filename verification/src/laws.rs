//! The engine's global guarantees, stated and proved over the spec-level
//! transitions that the executable operations are verified against.
use vstd::prelude::*;

use crate::errors::VaultError;
use crate::ledger::deposit_spec;
use crate::ledger::advance_epoch_spec;
use crate::ledger::record_notional_exposure_spec;
use crate::ledger::Vault;
use crate::withdrawal::process_withdrawal_spec;
use crate::withdrawal::WithdrawalRequest;
use crate::AccountId;
use crate::BPS_DENOMINATOR;
use crate::FIRST_DEPOSIT_VIRTUAL_OFFSET;
use crate::MAX_IMPLIED_YIELD_BPS;

verus! {

// ---------------------------------------------------------------------------
// Conservation of collateral
// ---------------------------------------------------------------------------
/// One collateral movement between the vault and the outside: how much a
/// successful deposit put in, or a successful withdrawal paid out.
pub enum AssetFlow {
    /// A deposit credited this many collateral units.
    Deposited { amount: u64 },
    /// A withdrawal paid out this many collateral units.
    Withdrawn { amount: u64 },
}

/// Sum of all deposited amounts in `flows`.
pub open spec fn total_deposited(flows: Seq<AssetFlow>) -> int
    decreases flows.len(),
{
    if flows.len() == 0 {
        0
    } else {
        total_deposited(flows.drop_last()) + match flows.last() {
            AssetFlow::Deposited { amount } => amount as int,
            AssetFlow::Withdrawn { .. } => 0,
        }
    }
}

/// Sum of all withdrawn amounts in `flows`.
pub open spec fn total_withdrawn(flows: Seq<AssetFlow>) -> int
    decreases flows.len(),
{
    if flows.len() == 0 {
        0
    } else {
        total_withdrawn(flows.drop_last()) + match flows.last() {
            AssetFlow::Deposited { .. } => 0,
            AssetFlow::Withdrawn { amount } => amount as int,
        }
    }
}

/// Collateral held after applying each flow in order to a vault that held
/// `initial_assets`.
pub open spec fn assets_after_flows(initial_assets: int, flows: Seq<AssetFlow>) -> int
    decreases flows.len(),
{
    if flows.len() == 0 {
        initial_assets
    } else {
        match flows.last() {
            AssetFlow::Deposited { amount } => assets_after_flows(initial_assets, flows.drop_last())
                + amount,
            AssetFlow::Withdrawn { amount } => assets_after_flows(initial_assets, flows.drop_last())
                - amount,
        }
    }
}

/// Conservation: over any sequence of deposit and withdrawal flows, the
/// collateral held is exactly the initial collateral plus everything
/// deposited minus everything withdrawn.
///
/// `lemma_deposit_moves_assets_exactly` and
/// `lemma_withdrawal_moves_assets_exactly` show that each successful
/// operation contributes exactly one such flow; epoch credit never touches
/// `total_assets` (premium lives in its own pool), so the identity holds for
/// any run of the engine.
pub proof fn lemma_conservation(initial_assets: int, flows: Seq<AssetFlow>)
    ensures
        assets_after_flows(initial_assets, flows) == initial_assets + total_deposited(flows)
            - total_withdrawn(flows),
    decreases flows.len(),
{
    if flows.len() > 0 {
        lemma_conservation(initial_assets, flows.drop_last());
    }
}

/// A successful deposit of `amount` credits exactly `amount` collateral:
/// the flow it contributes is `Deposited { amount }`.
pub proof fn lemma_deposit_moves_assets_exactly(v: Vault, amount: u64, now: i64)
    requires
        deposit_spec(v, amount, now) is Ok,
    ensures
        (deposit_spec(v, amount, now)->Ok_0).0.total_assets == v.total_assets + amount,
{
}

/// A successful withdrawal debits exactly the collateral it pays out, and
/// the payout is floored in the vault's favour: `payout * effective_shares`
/// never exceeds `shares * total_assets`.
pub proof fn lemma_withdrawal_moves_assets_exactly(
    v: Vault,
    r: WithdrawalRequest,
    min_expected_amount: u64,
    actual_premium_balance: u64,
)
    requires
        process_withdrawal_spec(v, r, min_expected_amount, actual_premium_balance) is Ok,
    ensures
        ({
            let outcome = process_withdrawal_spec(
                v,
                r,
                min_expected_amount,
                actual_premium_balance,
            )->Ok_0;
            &&& outcome.0.total_assets == v.total_assets - outcome.2
            &&& outcome.2 * v.effective_shares() <= r.shares * v.total_assets
        }),
{
    let eff = v.effective_shares();
    let scaled = r.shares * v.total_assets;
    let amount = scaled / eff;
    vstd::arithmetic::div_mod::lemma_fundamental_div_mod(scaled, eff);
    vstd::arithmetic::div_mod::lemma_mod_bound(scaled, eff);
    assert(eff * amount <= scaled);
    let outcome = process_withdrawal_spec(v, r, min_expected_amount, actual_premium_balance)->Ok_0;
    assert(outcome.2 == amount);
    assert(outcome.2 * eff == eff * amount) by (nonlinear_arith)
        requires
            outcome.2 == amount,
    ;
}

// ---------------------------------------------------------------------------
// First-deposit fairness
// ---------------------------------------------------------------------------
/// Depositing `amount` into an empty, unpaused vault succeeds, mints exactly
/// `amount` shares, and fixes the virtual offset, so the first depositor
/// loses no value while the conversion denominator gains a permanent
/// manipulation buffer.
pub proof fn lemma_first_deposit_fairness(v: Vault, amount: u64, now: i64)
    requires
        v.total_assets == 0,
        v.total_shares == 0,
        v.virtual_offset == 0,
        !v.is_paused,
        amount > 0,
    ensures
        deposit_spec(v, amount, now) is Ok,
        (deposit_spec(v, amount, now)->Ok_0).1 == amount,
        (deposit_spec(v, amount, now)->Ok_0).0.virtual_offset == FIRST_DEPOSIT_VIRTUAL_OFFSET,
        (deposit_spec(v, amount, now)->Ok_0).0.total_shares == amount,
        (deposit_spec(v, amount, now)->Ok_0).0.total_assets == amount,
{
}

/// After the first deposit fixed the offset, a deposit matching the whole
/// pool mints the pool's shares plus the offset: with `total_assets ==
/// total_shares == a`, depositing `a` mints exactly
/// `floor(a * (a + offset) / a) = a + offset` shares. Together with
/// `lemma_first_deposit_fairness` this pins the example arithmetic of the
/// anti-manipulation scheme: the depositor pays the dilution the offset
/// prescribes and nothing more.
pub proof fn lemma_matched_deposit_mints_offset_extra(v: Vault, a: u64, now: i64)
    requires
        v.total_assets == a,
        v.total_shares == a,
        v.virtual_offset == FIRST_DEPOSIT_VIRTUAL_OFFSET,
        !v.is_paused,
        a > 0,
        2 * a + FIRST_DEPOSIT_VIRTUAL_OFFSET <= u64::MAX,
    ensures
        deposit_spec(v, a, now) is Ok,
        (deposit_spec(v, a, now)->Ok_0).1 == a + FIRST_DEPOSIT_VIRTUAL_OFFSET,
{
    let eff = a + FIRST_DEPOSIT_VIRTUAL_OFFSET;
    vstd::arithmetic::div_mod::lemma_div_multiples_vanish(eff as int, a as int);
    assert(a * eff == a * (v.total_shares + v.virtual_offset)) by (nonlinear_arith)
        requires
            eff == v.total_shares + v.virtual_offset,
            a == v.total_assets,
    ;
}

// ---------------------------------------------------------------------------
// Utilization cap
// ---------------------------------------------------------------------------
/// The vault `v` after one attempt to record `(notional, premium)`: the new
/// state when the attempt succeeds, `v` unchanged when it is rejected.
pub open spec fn record_exposure_outcome(
    v: Vault,
    caller: AccountId,
    notional: u64,
    premium: u64,
) -> Vault {
    match record_notional_exposure_spec(v, caller, notional, premium) {
        Ok(v2) => v2,
        Err(_) => v,
    }
}

/// The vault after a whole sequence of exposure-recording attempts, each
/// taken in order.
pub open spec fn record_exposure_all(v: Vault, caller: AccountId, calls: Seq<(u64, u64)>) -> Vault
    decreases calls.len(),
{
    if calls.len() == 0 {
        v
    } else {
        record_exposure_all(
            record_exposure_outcome(v, caller, calls[0].0, calls[0].1),
            caller,
            calls.drop_first(),
        )
    }
}

/// One recording attempt either leaves the vault unchanged (a rejection has
/// no state change) or lands within the utilization cap, and it never
/// touches the collateral or the cap itself.
pub proof fn lemma_record_exposure_step(v: Vault, caller: AccountId, notional: u64, premium: u64)
    ensures
        ({
            let w = record_exposure_outcome(v, caller, notional, premium);
            &&& (w == v || w.epoch_notional_exposed <= w.max_exposure())
            &&& w.total_assets == v.total_assets
            &&& w.utilization_cap_bps == v.utilization_cap_bps
        }),
{
}

/// Utilization cap: starting from a vault within its cap (a fresh epoch
/// starts at zero exposure), no sequence of exposure-recording attempts can
/// ever push `epoch_notional_exposed` past
/// `total_assets * utilization_cap_bps / BPS_DENOMINATOR`; attempts that
/// would do so are rejected with no state change. Applying this to every
/// prefix of the sequence bounds the exposure at every intermediate point.
pub proof fn lemma_utilization_cap(v: Vault, caller: AccountId, calls: Seq<(u64, u64)>)
    requires
        v.epoch_notional_exposed <= v.max_exposure(),
    ensures
        ({
            let w = record_exposure_all(v, caller, calls);
            w.epoch_notional_exposed <= w.max_exposure()
        }),
    decreases calls.len(),
{
    if calls.len() > 0 {
        let w1 = record_exposure_outcome(v, caller, calls[0].0, calls[0].1);
        lemma_record_exposure_step(v, caller, calls[0].0, calls[0].1);
        lemma_utilization_cap(w1, caller, calls.drop_first());
    }
}

// ---------------------------------------------------------------------------
// Epoch yield bound
// ---------------------------------------------------------------------------
/// An epoch advance whose implied yield exceeds `MAX_IMPLIED_YIELD_BPS` is
/// always rejected; the executable contract then guarantees the counters are
/// unchanged.
pub proof fn lemma_excessive_yield_rejected(
    v: Vault,
    caller: AccountId,
    premium_earned: u64,
    now: i64,
)
    requires
        v.epoch_notional_exposed > 0,
        premium_earned * BPS_DENOMINATOR / (v.epoch_notional_exposed as int)
            > MAX_IMPLIED_YIELD_BPS,
    ensures
        advance_epoch_spec(v, caller, premium_earned, now) is Err,
{
}

// ---------------------------------------------------------------------------
// Idempotent settlement
// ---------------------------------------------------------------------------
/// Settling the same request twice cannot pay twice: a successful settlement
/// marks the request processed, and any second attempt on the settled
/// request is rejected as already processed, whatever floor or reported
/// balance it passes.
pub proof fn lemma_settlement_idempotent(
    v: Vault,
    r: WithdrawalRequest,
    min_expected_amount: u64,
    actual_premium_balance: u64,
    second_min_expected: u64,
    second_actual_balance: u64,
)
    requires
        process_withdrawal_spec(v, r, min_expected_amount, actual_premium_balance) is Ok,
    ensures
        ({
            let outcome = process_withdrawal_spec(
                v,
                r,
                min_expected_amount,
                actual_premium_balance,
            )->Ok_0;
            process_withdrawal_spec(
                outcome.0,
                outcome.1,
                second_min_expected,
                second_actual_balance,
            ) == Err::<(Vault, WithdrawalRequest, u64, u64), VaultError>(
                VaultError::AlreadyProcessed,
            )
        }),
{
}

} // verus!
