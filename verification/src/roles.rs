//! Capability store administration: role grants and minter quotas.
//!
//! Both operations are authority-only. A grant overwrites the holder's
//! whole capability set; a quota update keeps the minter's lifetime
//! counter, so past issuance is never forgotten.

use vstd::prelude::*;

use crate::error::StablecoinError;
use crate::state::{Addr, MinterInfo, RoleAccount, RoleFlags, StablecoinState};

verus! {

/// Why an authority-only administrative call is refused, or `None` if it
/// is owed success.
pub open spec fn admin_error(st: StablecoinState, caller: Addr) -> Option<StablecoinError> {
    if caller != st.authority {
        Some(StablecoinError::Unauthorized)
    } else {
        None
    }
}

/// Replace a holder's capability set (authority only). The returned record
/// overwrites any earlier grant for the same holder; granting the empty
/// set revokes everything.
pub fn update_roles(
    st: &StablecoinState,
    caller: Addr,
    stablecoin_id: Addr,
    holder: Addr,
    roles: RoleFlags,
) -> (r: Result<RoleAccount, StablecoinError>)
    ensures
        match r {
            Ok(ra) => {
                &&& admin_error(*st, caller) is None
                &&& ra == (RoleAccount { stablecoin: stablecoin_id, holder, roles })
            },
            Err(e) => admin_error(*st, caller) == Some(e),
        },
{
    if caller != st.authority {
        return Err(StablecoinError::Unauthorized);
    }
    Ok(RoleAccount { stablecoin: stablecoin_id, holder, roles })
}

/// Why a minter-quota update is refused, or `None` if it is owed success.
pub open spec fn update_minter_error(st: StablecoinState, caller: Addr) -> Option<
    StablecoinError,
> {
    admin_error(st, caller)
}

/// The minter record after a quota update: the quota is replaced and the
/// lifetime counter kept; setting an epoch length also opens a fresh epoch
/// window at `now`, while `None` leaves the epoch configuration alone.
pub open spec fn minter_after_update(
    mi: MinterInfo,
    stablecoin_id: Addr,
    minter: Addr,
    quota: u64,
    epoch_duration: Option<i64>,
    now: i64,
) -> MinterInfo {
    match epoch_duration {
        Some(d) => MinterInfo {
            stablecoin: stablecoin_id,
            minter,
            quota,
            epoch_duration: d,
            epoch_start: now,
            minted_this_epoch: 0u64,
            ..mi
        },
        None => MinterInfo { stablecoin: stablecoin_id, minter, quota, ..mi },
    }
}

/// Set a minter's quota and, optionally, its epoch length (authority
/// only). The lifetime counter is preserved across updates.
pub fn update_minter(
    st: &StablecoinState,
    caller: Addr,
    mi: &mut MinterInfo,
    stablecoin_id: Addr,
    minter: Addr,
    quota: u64,
    epoch_duration: Option<i64>,
    now: i64,
) -> (r: Result<(), StablecoinError>)
    ensures
        match r {
            Ok(()) => {
                &&& update_minter_error(*st, caller) is None
                &&& *final(mi) == minter_after_update(
                    *old(mi),
                    stablecoin_id,
                    minter,
                    quota,
                    epoch_duration,
                    now,
                )
            },
            Err(e) => {
                &&& update_minter_error(*st, caller) == Some(e)
                &&& *final(mi) == *old(mi)
            },
        },
{
    if caller != st.authority {
        return Err(StablecoinError::Unauthorized);
    }
    mi.stablecoin = stablecoin_id;
    mi.minter = minter;
    mi.quota = quota;
    match epoch_duration {
        Some(d) => {
            mi.epoch_duration = d;
            mi.epoch_start = now;
            mi.minted_this_epoch = 0;
        },
        None => (),
    }
    Ok(())
}

} // verus!
