//! The currency-level pause switch.
//!
//! Pausing halts mint and burn while leaving administrative actions alone;
//! it requires the pauser capability and is idempotent in both directions.

use vstd::prelude::*;

use crate::error::StablecoinError;
use crate::state::{RoleAccount, StablecoinState};

verus! {

/// Why flipping the pause switch is refused, or `None` if it is owed
/// success.
pub open spec fn pause_error(role: RoleAccount) -> Option<StablecoinError> {
    if !role.roles.is_pauser {
        Some(StablecoinError::Unauthorized)
    } else {
        None
    }
}

/// Halt mint and burn for this currency (pauser capability required).
pub fn pause(st: &mut StablecoinState, role: &RoleAccount) -> (r: Result<(), StablecoinError>)
    ensures
        match r {
            Ok(()) => {
                &&& pause_error(*role) is None
                &&& *final(st) == (StablecoinState { paused: true, ..*old(st) })
            },
            Err(e) => {
                &&& pause_error(*role) == Some(e)
                &&& *final(st) == *old(st)
            },
        },
{
    if !role.roles.is_pauser {
        return Err(StablecoinError::Unauthorized);
    }
    st.paused = true;
    Ok(())
}

/// Resume mint and burn for this currency (pauser capability required).
pub fn unpause(st: &mut StablecoinState, role: &RoleAccount) -> (r: Result<(), StablecoinError>)
    ensures
        match r {
            Ok(()) => {
                &&& pause_error(*role) is None
                &&& *final(st) == (StablecoinState { paused: false, ..*old(st) })
            },
            Err(e) => {
                &&& pause_error(*role) == Some(e)
                &&& *final(st) == *old(st)
            },
        },
{
    if !role.roles.is_pauser {
        return Err(StablecoinError::Unauthorized);
    }
    st.paused = false;
    Ok(())
}

} // verus!
