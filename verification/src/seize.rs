//! Seizure of a blacklisted holder's full balance.
//!
//! The hardened variant: beyond the seizer capability and the compliance
//! tier, the source holder must currently carry a blacklist entry, and the
//! entry must name the very owner recorded on the source token account.
//! Seizure always takes the whole balance; partial seizure does not exist.

use vstd::prelude::*;

use crate::error::StablecoinError;
use crate::state::{Addr, BlacklistEntry, RoleAccount, StablecoinState};

verus! {

/// Why a seizure is refused, or `None` if it is owed success.
///
/// `source_owner` is the owner recorded on the source token account and
/// `source_amount` its full balance, both read by the host just before the
/// call.
pub open spec fn seize_error(
    st: StablecoinState,
    role: RoleAccount,
    entry: BlacklistEntry,
    source_owner: Addr,
    source_amount: u64,
) -> Option<StablecoinError> {
    if !st.compliance_tier() {
        Some(StablecoinError::ComplianceNotEnabled)
    } else if !role.roles.is_seizer {
        Some(StablecoinError::Unauthorized)
    } else if entry.address != source_owner {
        Some(StablecoinError::Unauthorized)
    } else if source_amount == 0 {
        Some(StablecoinError::ZeroAmount)
    } else {
        None
    }
}

/// Gate the seizure of a blacklisted holder's balance and fix the amount:
/// always the full balance, so a successful seizure zeroes the source. On
/// success the host moves exactly the returned amount to the destination
/// through the currency's permanent-delegate authority.
pub fn seize(
    st: &StablecoinState,
    role: &RoleAccount,
    entry: &BlacklistEntry,
    source_owner: Addr,
    source_amount: u64,
) -> (r: Result<u64, StablecoinError>)
    ensures
        match r {
            Ok(amount) => {
                &&& seize_error(*st, *role, *entry, source_owner, source_amount) is None
                &&& amount == source_amount
            },
            Err(e) => seize_error(*st, *role, *entry, source_owner, source_amount) == Some(e),
        },
{
    if !st.is_sss2() {
        return Err(StablecoinError::ComplianceNotEnabled);
    }
    if !role.roles.is_seizer {
        return Err(StablecoinError::Unauthorized);
    }
    if entry.address != source_owner {
        return Err(StablecoinError::Unauthorized);
    }
    if source_amount == 0 {
        return Err(StablecoinError::ZeroAmount);
    }
    Ok(source_amount)
}

} // verus!
