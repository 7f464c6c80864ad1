//! Freezing and thawing single token accounts.
//!
//! Both are gated on the pauser capability; the freeze itself is carried
//! out by the host through the external token-transfer module, with the
//! currency record as the freeze authority.

use vstd::prelude::*;

use crate::error::StablecoinError;
use crate::state::RoleAccount;

verus! {

/// Why freezing or thawing an account is refused, or `None` if the host
/// may proceed.
pub open spec fn freeze_error(role: RoleAccount) -> Option<StablecoinError> {
    if !role.roles.is_pauser {
        Some(StablecoinError::Unauthorized)
    } else {
        None
    }
}

/// Gate freezing one token account (pauser capability required). On
/// success the host freezes the target through the external module.
pub fn freeze_account(role: &RoleAccount) -> (r: Result<(), StablecoinError>)
    ensures
        match r {
            Ok(()) => freeze_error(*role) is None,
            Err(e) => freeze_error(*role) == Some(e),
        },
{
    if !role.roles.is_pauser {
        return Err(StablecoinError::Unauthorized);
    }
    Ok(())
}

/// Gate thawing one token account (pauser capability required). On
/// success the host thaws the target through the external module.
pub fn thaw_account(role: &RoleAccount) -> (r: Result<(), StablecoinError>)
    ensures
        match r {
            Ok(()) => freeze_error(*role) is None,
            Err(e) => freeze_error(*role) == Some(e),
        },
{
    if !role.roles.is_pauser {
        return Err(StablecoinError::Unauthorized);
    }
    Ok(())
}

} // verus!
