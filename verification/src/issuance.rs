//! Issuance engine: mint and burn under quota, epoch and supply-cap rules.
//!
//! A mint is validated against the minter's quota (the epoch counter when an
//! epoch length is configured, the lifetime counter otherwise) and, when a
//! cap is set, against the circulating supply, strictly before the host
//! invokes the external token-transfer module; the host persists the updated
//! records only if that invocation also succeeds, and discards everything
//! otherwise. All counter updates are overflow-checked and fail closed with
//! [`StablecoinError::MathOverflow`].

use vstd::prelude::*;

use crate::error::StablecoinError;
use crate::state::{Addr, MinterInfo, RoleAccount, StablecoinState};

verus! {

/// The minter's epoch has elapsed, so the next mint starts a new epoch.
pub open spec fn epoch_rolls(mi: MinterInfo, now: i64) -> bool {
    mi.epoch_duration > 0 && now >= mi.epoch_start + mi.epoch_duration
}

/// The counter a mint at `now` is charged against, after any epoch reset:
/// the epoch counter in epoch mode, the lifetime counter otherwise.
pub open spec fn active_counter(mi: MinterInfo, now: i64) -> int {
    if mi.epoch_duration > 0 {
        if epoch_rolls(mi, now) {
            0
        } else {
            mi.minted_this_epoch as int
        }
    } else {
        mi.minted_amount as int
    }
}

/// Why a mint of `amount` at `now` is refused, or `None` if it is owed
/// success. Checks are ordered as performed.
pub open spec fn mint_error(
    st: StablecoinState,
    role: RoleAccount,
    mi: MinterInfo,
    amount: u64,
    now: i64,
) -> Option<StablecoinError> {
    if amount == 0 {
        Some(StablecoinError::ZeroAmount)
    } else if st.paused {
        Some(StablecoinError::Paused)
    } else if !role.roles.is_minter {
        Some(StablecoinError::Unauthorized)
    } else if st.max_supply > 0 && st.circulating() + amount > u64::MAX {
        Some(StablecoinError::MathOverflow)
    } else if st.max_supply > 0 && st.circulating() + amount > st.max_supply {
        Some(StablecoinError::SupplyCapExceeded)
    } else if active_counter(mi, now) + amount > u64::MAX {
        Some(StablecoinError::MathOverflow)
    } else if active_counter(mi, now) + amount > mi.quota {
        Some(StablecoinError::QuotaExceeded)
    } else if mi.minted_amount + amount > u64::MAX {
        Some(StablecoinError::MathOverflow)
    } else if (if epoch_rolls(mi, now) { 0int } else { mi.minted_this_epoch as int }) + amount
        > u64::MAX {
        Some(StablecoinError::MathOverflow)
    } else if st.total_minted + amount > u64::MAX {
        Some(StablecoinError::MathOverflow)
    } else {
        None
    }
}

/// The minter record after a successful mint of `amount` at `now`.
pub open spec fn minter_after_mint(mi: MinterInfo, amount: u64, now: i64) -> MinterInfo {
    if epoch_rolls(mi, now) {
        MinterInfo {
            minted_amount: (mi.minted_amount + amount) as u64,
            minted_this_epoch: amount,
            epoch_start: now,
            ..mi
        }
    } else {
        MinterInfo {
            minted_amount: (mi.minted_amount + amount) as u64,
            minted_this_epoch: (mi.minted_this_epoch + amount) as u64,
            ..mi
        }
    }
}

/// The currency record after a successful mint of `amount`.
pub open spec fn config_after_mint(st: StablecoinState, amount: u64) -> StablecoinState {
    StablecoinState { total_minted: (st.total_minted + amount) as u64, ..st }
}

/// Mint `amount` new tokens under the caller's quota.
///
/// On success the lifetime and epoch counters and the currency's
/// `total_minted` all advance by exactly `amount`, rolling the epoch first
/// when it has elapsed; the host then credits the recipient through the
/// external token-transfer module. On any error nothing changes.
pub fn mint_tokens(
    st: &mut StablecoinState,
    role: &RoleAccount,
    mi: &mut MinterInfo,
    amount: u64,
    now: i64,
) -> (r: Result<(), StablecoinError>)
    requires
        old(st).wf(),
    ensures
        match r {
            Ok(()) => {
                &&& mint_error(*old(st), *role, *old(mi), amount, now) is None
                &&& *final(st) == config_after_mint(*old(st), amount)
                &&& *final(mi) == minter_after_mint(*old(mi), amount, now)
                &&& final(st).wf()
            },
            Err(e) => {
                &&& mint_error(*old(st), *role, *old(mi), amount, now) == Some(e)
                &&& *final(st) == *old(st)
                &&& *final(mi) == *old(mi)
            },
        },
{
    if amount == 0 {
        return Err(StablecoinError::ZeroAmount);
    }
    if st.paused {
        return Err(StablecoinError::Paused);
    }
    if !role.roles.is_minter {
        return Err(StablecoinError::Unauthorized);
    }

    // Supply cap enforcement.
    if st.max_supply > 0 {
        let circulating = match st.total_minted.checked_sub(st.total_burned) {
            Some(c) => c,
            None => {
                return Err(StablecoinError::MathOverflow);
            },
        };
        let new_circulating = match circulating.checked_add(amount) {
            Some(c) => c,
            None => {
                return Err(StablecoinError::MathOverflow);
            },
        };
        if new_circulating > st.max_supply {
            return Err(StablecoinError::SupplyCapExceeded);
        }
    }

    // Epoch-aware quota enforcement. An epoch end past the integer range
    // can never be reached, so treat that sum as not yet elapsed.
    let rolls = mi.epoch_duration > 0 && (match mi.epoch_start.checked_add(mi.epoch_duration) {
        Some(end) => now >= end,
        None => false,
    });
    let counter: u64 = if mi.epoch_duration > 0 {
        if rolls {
            0
        } else {
            mi.minted_this_epoch
        }
    } else {
        mi.minted_amount
    };
    let new_counter = match counter.checked_add(amount) {
        Some(c) => c,
        None => {
            return Err(StablecoinError::MathOverflow);
        },
    };
    if new_counter > mi.quota {
        return Err(StablecoinError::QuotaExceeded);
    }

    // All remaining updates must succeed before any record changes.
    let new_minted_amount = match mi.minted_amount.checked_add(amount) {
        Some(c) => c,
        None => {
            return Err(StablecoinError::MathOverflow);
        },
    };
    let epoch_base: u64 = if rolls {
        0
    } else {
        mi.minted_this_epoch
    };
    let new_minted_this_epoch = match epoch_base.checked_add(amount) {
        Some(c) => c,
        None => {
            return Err(StablecoinError::MathOverflow);
        },
    };
    let new_total_minted = match st.total_minted.checked_add(amount) {
        Some(c) => c,
        None => {
            return Err(StablecoinError::MathOverflow);
        },
    };

    if rolls {
        mi.epoch_start = now;
    }
    mi.minted_this_epoch = new_minted_this_epoch;
    mi.minted_amount = new_minted_amount;
    st.total_minted = new_total_minted;
    Ok(())
}

/// Why a burn of `amount` is refused, or `None` if it is owed success.
///
/// Burning more than the circulating supply would underflow the supply
/// accounting, so it fails closed like any other counter fault. (The
/// external burn of the caller's own balance would refuse such a call
/// anyway, since no caller holds more than the circulating supply.)
pub open spec fn burn_error(
    st: StablecoinState,
    role: RoleAccount,
    amount: u64,
) -> Option<StablecoinError> {
    if amount == 0 {
        Some(StablecoinError::ZeroAmount)
    } else if st.paused {
        Some(StablecoinError::Paused)
    } else if !role.roles.is_burner {
        Some(StablecoinError::Unauthorized)
    } else if amount > st.circulating() {
        Some(StablecoinError::MathOverflow)
    } else {
        None
    }
}

/// The currency record after a successful burn of `amount`.
pub open spec fn config_after_burn(st: StablecoinState, amount: u64) -> StablecoinState {
    StablecoinState { total_burned: (st.total_burned + amount) as u64, ..st }
}

/// Burn `amount` tokens from the caller's own balance.
///
/// On success `total_burned` advances by exactly `amount` and still never
/// exceeds `total_minted`; the host then debits the caller through the
/// external token-transfer module. On any error nothing changes.
pub fn burn_tokens(
    st: &mut StablecoinState,
    role: &RoleAccount,
    amount: u64,
) -> (r: Result<(), StablecoinError>)
    requires
        old(st).wf(),
    ensures
        match r {
            Ok(()) => {
                &&& burn_error(*old(st), *role, amount) is None
                &&& *final(st) == config_after_burn(*old(st), amount)
                &&& final(st).wf()
            },
            Err(e) => {
                &&& burn_error(*old(st), *role, amount) == Some(e)
                &&& *final(st) == *old(st)
            },
        },
{
    if amount == 0 {
        return Err(StablecoinError::ZeroAmount);
    }
    if st.paused {
        return Err(StablecoinError::Paused);
    }
    if !role.roles.is_burner {
        return Err(StablecoinError::Unauthorized);
    }
    let circulating = match st.total_minted.checked_sub(st.total_burned) {
        Some(c) => c,
        None => {
            return Err(StablecoinError::MathOverflow);
        },
    };
    if amount > circulating {
        return Err(StablecoinError::MathOverflow);
    }
    let new_total_burned = match st.total_burned.checked_add(amount) {
        Some(c) => c,
        None => {
            return Err(StablecoinError::MathOverflow);
        },
    };
    st.total_burned = new_total_burned;
    Ok(())
}

/// Why replacing the supply cap is refused, or `None` if it is owed success.
pub open spec fn supply_cap_error(
    st: StablecoinState,
    caller: Addr,
    new_max_supply: u64,
) -> Option<StablecoinError> {
    if caller != st.authority {
        Some(StablecoinError::Unauthorized)
    } else if new_max_supply > 0 && new_max_supply < st.circulating() {
        Some(StablecoinError::SupplyCapBelowCirculation)
    } else {
        None
    }
}

/// Replace the supply cap (authority only). A non-zero cap must cover the
/// current circulating supply; 0 removes the cap.
pub fn update_supply_cap(
    st: &mut StablecoinState,
    caller: Addr,
    new_max_supply: u64,
) -> (r: Result<(), StablecoinError>)
    requires
        old(st).wf(),
    ensures
        match r {
            Ok(()) => {
                &&& supply_cap_error(*old(st), caller, new_max_supply) is None
                &&& *final(st) == (StablecoinState { max_supply: new_max_supply, ..*old(st) })
                &&& final(st).wf()
            },
            Err(e) => {
                &&& supply_cap_error(*old(st), caller, new_max_supply) == Some(e)
                &&& *final(st) == *old(st)
            },
        },
{
    if caller != st.authority {
        return Err(StablecoinError::Unauthorized);
    }
    if new_max_supply > 0 {
        let circulating = match st.total_minted.checked_sub(st.total_burned) {
            Some(c) => c,
            None => {
                return Err(StablecoinError::MathOverflow);
            },
        };
        if new_max_supply < circulating {
            return Err(StablecoinError::SupplyCapBelowCirculation);
        }
    }
    st.max_supply = new_max_supply;
    Ok(())
}

/// Issuance accounting of a successful mint: the total and the active
/// counter advance by exactly the amount, the counter stays within the
/// quota, and a capped supply stays within its cap.
pub proof fn lemma_mint_accounting(
    st: StablecoinState,
    role: RoleAccount,
    mi: MinterInfo,
    amount: u64,
    now: i64,
)
    requires
        st.wf(),
        mint_error(st, role, mi, amount, now) is None,
    ensures
        config_after_mint(st, amount).total_minted == st.total_minted + amount,
        active_counter(minter_after_mint(mi, amount, now), now) == active_counter(mi, now)
            + amount,
        minter_after_mint(mi, amount, now).minted_amount == mi.minted_amount + amount,
        active_counter(minter_after_mint(mi, amount, now), now) <= mi.quota,
        st.max_supply > 0 ==> config_after_mint(st, amount).circulating() <= st.max_supply,
{
}

/// Epoch rollover: when the epoch has elapsed, a successful mint opens a
/// new epoch at `now` and starts its counter afresh, so the new amount is
/// all the new epoch holds.
pub proof fn lemma_epoch_rollover(mi: MinterInfo, amount: u64, now: i64)
    requires
        epoch_rolls(mi, now),
    ensures
        minter_after_mint(mi, amount, now).epoch_start == now,
        minter_after_mint(mi, amount, now).minted_this_epoch == amount,
{
}

/// Burn accounting: a successful burn advances `total_burned` by exactly
/// the amount, and burned still never exceeds minted.
pub proof fn lemma_burn_accounting(st: StablecoinState, role: RoleAccount, amount: u64)
    requires
        st.wf(),
        burn_error(st, role, amount) is None,
    ensures
        config_after_burn(st, amount).total_burned == st.total_burned + amount,
        config_after_burn(st, amount).total_burned <= config_after_burn(st, amount).total_minted,
        config_after_burn(st, amount).wf(),
{
}

} // verus!
