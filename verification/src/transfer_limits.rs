//! Per-transfer and rolling per-day caps for compliance-tier currencies.

use vstd::prelude::*;

use crate::error::StablecoinError;
use crate::state::{Addr, StablecoinState, TransferLimitConfig};

verus! {

/// Why configuring transfer limits is refused, or `None` if it is owed
/// success.
pub open spec fn configure_transfer_limits_error(
    st: StablecoinState,
    caller: Addr,
) -> Option<StablecoinError> {
    if caller != st.authority {
        Some(StablecoinError::Unauthorized)
    } else if !st.compliance_tier() {
        Some(StablecoinError::ComplianceNotEnabled)
    } else {
        None
    }
}

/// The limit record after a successful configuration: caps replaced, and a
/// record configured for the first time opens its daily window at `now`.
pub open spec fn limits_after_configure(
    cfg: TransferLimitConfig,
    stablecoin_id: Addr,
    max_per_tx: u64,
    max_per_day: u64,
    now: i64,
) -> TransferLimitConfig {
    if cfg.day_start == 0 {
        TransferLimitConfig {
            stablecoin: stablecoin_id,
            max_per_tx,
            max_per_day,
            daily_transferred: 0u64,
            day_start: now,
        }
    } else {
        TransferLimitConfig { stablecoin: stablecoin_id, max_per_tx, max_per_day, ..cfg }
    }
}

/// Set a currency's transfer caps (authority only, compliance tier). A
/// fresh record starts its rolling daily window at `now`; an existing
/// window and its running total are kept.
pub fn configure_transfer_limits(
    st: &StablecoinState,
    caller: Addr,
    cfg: &mut TransferLimitConfig,
    stablecoin_id: Addr,
    max_per_tx: u64,
    max_per_day: u64,
    now: i64,
) -> (r: Result<(), StablecoinError>)
    ensures
        match r {
            Ok(()) => {
                &&& configure_transfer_limits_error(*st, caller) is None
                &&& *final(cfg) == limits_after_configure(
                    *old(cfg),
                    stablecoin_id,
                    max_per_tx,
                    max_per_day,
                    now,
                )
            },
            Err(e) => {
                &&& configure_transfer_limits_error(*st, caller) == Some(e)
                &&& *final(cfg) == *old(cfg)
            },
        },
{
    if caller != st.authority {
        return Err(StablecoinError::Unauthorized);
    }
    if !st.is_sss2() {
        return Err(StablecoinError::ComplianceNotEnabled);
    }
    cfg.stablecoin = stablecoin_id;
    cfg.max_per_tx = max_per_tx;
    cfg.max_per_day = max_per_day;
    if cfg.day_start == 0 {
        cfg.daily_transferred = 0;
        cfg.day_start = now;
    }
    Ok(())
}

} // verus!
