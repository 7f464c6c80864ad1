//! Compliance gate: blacklist entries.
//!
//! Both operations require the blacklister capability and are only open to
//! compliance-tier currencies. The record's existence is the flag: the
//! host stores one entry under the derived address of (currency, address)
//! and deletes it on removal; creating a second entry for the same address
//! fails at the host's storage layer, as does removing a missing one.

use vstd::prelude::*;

use crate::error::StablecoinError;
use crate::state::{Addr, BlacklistEntry, RoleAccount, StablecoinState, MAX_REASON_LEN};

verus! {

/// Why a blacklist addition is refused, or `None` if it is owed success.
pub open spec fn add_to_blacklist_error(
    st: StablecoinState,
    role: RoleAccount,
    reason_len: int,
) -> Option<StablecoinError> {
    if !st.compliance_tier() {
        Some(StablecoinError::ComplianceNotEnabled)
    } else if !role.roles.is_blacklister {
        Some(StablecoinError::Unauthorized)
    } else if reason_len > MAX_REASON_LEN {
        Some(StablecoinError::ReasonTooLong)
    } else {
        None
    }
}

/// Flag one address (compliance tier, blacklister capability). The
/// returned record is stamped with the caller and the current time.
pub fn add_to_blacklist(
    st: &StablecoinState,
    role: &RoleAccount,
    stablecoin_id: Addr,
    address: Addr,
    reason: Vec<u8>,
    caller: Addr,
    now: i64,
) -> (r: Result<BlacklistEntry, StablecoinError>)
    ensures
        match r {
            Ok(entry) => {
                &&& add_to_blacklist_error(*st, *role, reason@.len() as int) is None
                &&& entry.stablecoin == stablecoin_id
                &&& entry.address == address
                &&& entry.reason@ == reason@
                &&& entry.blacklisted_at == now
                &&& entry.blacklisted_by == caller
                &&& entry.wf()
            },
            Err(e) => add_to_blacklist_error(*st, *role, reason@.len() as int) == Some(e),
        },
{
    if !st.is_sss2() {
        return Err(StablecoinError::ComplianceNotEnabled);
    }
    if !role.roles.is_blacklister {
        return Err(StablecoinError::Unauthorized);
    }
    if reason.len() > MAX_REASON_LEN {
        return Err(StablecoinError::ReasonTooLong);
    }
    Ok(
        BlacklistEntry {
            stablecoin: stablecoin_id,
            address,
            reason,
            blacklisted_at: now,
            blacklisted_by: caller,
        },
    )
}

/// Why a blacklist removal is refused, or `None` if the host may delete
/// the entry.
pub open spec fn remove_from_blacklist_error(
    st: StablecoinState,
    role: RoleAccount,
) -> Option<StablecoinError> {
    if !st.compliance_tier() {
        Some(StablecoinError::ComplianceNotEnabled)
    } else if !role.roles.is_blacklister {
        Some(StablecoinError::Unauthorized)
    } else {
        None
    }
}

/// Unflag one address (compliance tier, blacklister capability). On
/// success the host deletes the entry record.
pub fn remove_from_blacklist(st: &StablecoinState, role: &RoleAccount) -> (r: Result<
    (),
    StablecoinError,
>)
    ensures
        match r {
            Ok(()) => remove_from_blacklist_error(*st, *role) is None,
            Err(e) => remove_from_blacklist_error(*st, *role) == Some(e),
        },
{
    if !st.is_sss2() {
        return Err(StablecoinError::ComplianceNotEnabled);
    }
    if !role.roles.is_blacklister {
        return Err(StablecoinError::Unauthorized);
    }
    Ok(())
}

} // verus!
