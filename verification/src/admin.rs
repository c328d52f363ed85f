//! Authority-gated controls: the emergency pause and the stage-then-commit
//! parameter timelock.
use vstd::prelude::*;

use crate::errors::VaultError;
use crate::ledger::Vault;
use crate::AccountId;
use crate::BPS_DENOMINATOR;
use crate::PARAM_TIMELOCK_SECONDS;

verus! {

/// What staging a parameter change at time `now` does to vault `v`.
///
/// Omitted parameters keep whatever was staged before; a cap above 100% is
/// rejected. The staged values unlock `PARAM_TIMELOCK_SECONDS` after `now`.
pub open spec fn queue_param_change_spec(
    v: Vault,
    caller: AccountId,
    new_min_epoch_duration: Option<i64>,
    new_utilization_cap_bps: Option<u16>,
    now: i64,
) -> Result<Vault, VaultError> {
    if caller != v.authority {
        Err(VaultError::NotAuthority)
    } else if new_utilization_cap_bps matches Some(cap) && cap > BPS_DENOMINATOR {
        Err(VaultError::InvalidParameter)
    } else if now + PARAM_TIMELOCK_SECONDS > i64::MAX {
        Err(VaultError::Overflow)
    } else {
        Ok(
            Vault {
                pending_min_epoch_duration: match new_min_epoch_duration {
                    Some(duration) => duration,
                    None => v.pending_min_epoch_duration,
                },
                pending_utilization_cap: match new_utilization_cap_bps {
                    Some(cap) => cap,
                    None => v.pending_utilization_cap,
                },
                param_change_unlock_time: (now + PARAM_TIMELOCK_SECONDS) as i64,
                ..v
            },
        )
    }
}

/// What committing the staged parameter change at time `now` does to `v`.
///
/// Requires a staged change whose unlock time has passed. Staged values of
/// zero (or below, for the duration) stand for "nothing staged" and leave
/// the live parameter as it is; the staging fields are cleared either way.
pub open spec fn execute_param_change_spec(v: Vault, caller: AccountId, now: i64) -> Result<
    Vault,
    VaultError,
> {
    if caller != v.authority {
        Err(VaultError::NotAuthority)
    } else if !(v.param_change_unlock_time > 0 && now >= v.param_change_unlock_time) {
        Err(VaultError::TimelockNotExpired)
    } else {
        Ok(
            Vault {
                min_epoch_duration: if v.pending_min_epoch_duration > 0 {
                    v.pending_min_epoch_duration
                } else {
                    v.min_epoch_duration
                },
                utilization_cap_bps: if v.pending_utilization_cap > 0 {
                    v.pending_utilization_cap
                } else {
                    v.utilization_cap_bps
                },
                pending_min_epoch_duration: 0i64,
                pending_utilization_cap: 0u16,
                param_change_unlock_time: 0i64,
                ..v
            },
        )
    }
}

impl Vault {
    /// Set or clear the emergency pause. While paused, deposits, new
    /// withdrawal requests, and withdrawal processing are blocked.
    /// Authority-only.
    pub fn set_pause(&mut self, caller: AccountId, paused: bool) -> (r: Result<(), VaultError>)
        ensures
            caller != old(self).authority ==> r == Err::<(), VaultError>(VaultError::NotAuthority)
                && *final(self) == *old(self),
            caller == old(self).authority ==> r == Ok::<(), VaultError>(()) && *final(self) == (
            Vault { is_paused: paused, ..*old(self) }),
    {
        if caller != self.authority {
            return Err(VaultError::NotAuthority);
        }
        self.is_paused = paused;
        Ok(())
    }

    /// Stage a parameter change behind the timelock. Authority-only.
    pub fn queue_param_change(
        &mut self,
        caller: AccountId,
        new_min_epoch_duration: Option<i64>,
        new_utilization_cap_bps: Option<u16>,
        now: i64,
    ) -> (r: Result<(), VaultError>)
        ensures
            (queue_param_change_spec(
                *old(self),
                caller,
                new_min_epoch_duration,
                new_utilization_cap_bps,
                now,
            ) matches Ok(v2) ==> r == Ok::<(), VaultError>(()) && *final(self) == v2),
            (queue_param_change_spec(
                *old(self),
                caller,
                new_min_epoch_duration,
                new_utilization_cap_bps,
                now,
            ) matches Err(e) ==> r == Err::<(), VaultError>(e) && *final(self) == *old(self)),
    {
        if caller != self.authority {
            return Err(VaultError::NotAuthority);
        }
        if let Some(cap) = new_utilization_cap_bps {
            if cap > BPS_DENOMINATOR as u16 {
                return Err(VaultError::InvalidParameter);
            }
        }
        if now > i64::MAX - PARAM_TIMELOCK_SECONDS {
            return Err(VaultError::Overflow);
        }
        if let Some(duration) = new_min_epoch_duration {
            self.pending_min_epoch_duration = duration;
        }
        if let Some(cap) = new_utilization_cap_bps {
            self.pending_utilization_cap = cap;
        }
        self.param_change_unlock_time = now + PARAM_TIMELOCK_SECONDS;
        Ok(())
    }

    /// Commit the staged parameter change once the timelock has expired.
    /// Authority-only.
    pub fn execute_param_change(&mut self, caller: AccountId, now: i64) -> (r: Result<
        (),
        VaultError,
    >)
        ensures
            (execute_param_change_spec(*old(self), caller, now) matches Ok(v2) ==> r == Ok::<
                (),
                VaultError,
            >(()) && *final(self) == v2),
            (execute_param_change_spec(*old(self), caller, now) matches Err(e) ==> r == Err::<
                (),
                VaultError,
            >(e) && *final(self) == *old(self)),
    {
        if caller != self.authority {
            return Err(VaultError::NotAuthority);
        }
        if !(self.param_change_unlock_time > 0 && now >= self.param_change_unlock_time) {
            return Err(VaultError::TimelockNotExpired);
        }
        if self.pending_min_epoch_duration > 0 {
            self.min_epoch_duration = self.pending_min_epoch_duration;
        }
        if self.pending_utilization_cap > 0 {
            self.utilization_cap_bps = self.pending_utilization_cap;
        }
        self.pending_min_epoch_duration = 0;
        self.pending_utilization_cap = 0;
        self.param_change_unlock_time = 0;
        Ok(())
    }

    /// Discard any staged parameter change. Authority-only.
    pub fn cancel_param_change(&mut self, caller: AccountId) -> (r: Result<(), VaultError>)
        ensures
            caller != old(self).authority ==> r == Err::<(), VaultError>(VaultError::NotAuthority)
                && *final(self) == *old(self),
            caller == old(self).authority ==> r == Ok::<(), VaultError>(()) && *final(self) == (
            Vault {
                pending_min_epoch_duration: 0i64,
                pending_utilization_cap: 0u16,
                param_change_unlock_time: 0i64,
                ..*old(self)
            }),
    {
        if caller != self.authority {
            return Err(VaultError::NotAuthority);
        }
        self.pending_min_epoch_duration = 0;
        self.pending_utilization_cap = 0;
        self.param_change_unlock_time = 0;
        Ok(())
    }

    /// Deprecated direct path for the epoch duration: always rejected in
    /// favour of the timelock. Kept so existing callers fail cleanly.
    pub fn set_min_epoch_duration(&self, caller: AccountId, _duration: i64) -> (r: Result<
        (),
        VaultError,
    >)
        ensures
            caller != self.authority ==> r == Err::<(), VaultError>(VaultError::NotAuthority),
            caller == self.authority ==> r == Err::<(), VaultError>(
                VaultError::UseTimelockForParamChange,
            ),
    {
        if caller != self.authority {
            return Err(VaultError::NotAuthority);
        }
        Err(VaultError::UseTimelockForParamChange)
    }

    /// Deprecated direct path for the utilization cap: always rejected in
    /// favour of the timelock. Kept so existing callers fail cleanly.
    pub fn set_utilization_cap(&self, caller: AccountId, _cap_bps: u16) -> (r: Result<
        (),
        VaultError,
    >)
        ensures
            caller != self.authority ==> r == Err::<(), VaultError>(VaultError::NotAuthority),
            caller == self.authority ==> r == Err::<(), VaultError>(
                VaultError::UseTimelockForParamChange,
            ),
    {
        if caller != self.authority {
            return Err(VaultError::NotAuthority);
        }
        Err(VaultError::UseTimelockForParamChange)
    }
}

} // verus!
