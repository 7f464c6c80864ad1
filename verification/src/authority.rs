//! Two-step authority transfer handshake.
//!
//! The current authority proposes a successor; the successor must accept
//! under its own signature before the role moves. A mistyped target can
//! therefore never lock the currency out: until acceptance the proposal can
//! simply be overwritten.

use vstd::prelude::*;

use crate::error::StablecoinError;
use crate::state::{Addr, StablecoinState};

verus! {

/// Why proposing an authority transfer is refused, or `None` if it is owed
/// success.
pub open spec fn transfer_authority_error(
    st: StablecoinState,
    caller: Addr,
) -> Option<StablecoinError> {
    if caller != st.authority {
        Some(StablecoinError::Unauthorized)
    } else {
        None
    }
}

/// Step one: the current authority names a pending successor.
pub fn transfer_authority(
    st: &mut StablecoinState,
    caller: Addr,
    new_authority: Addr,
) -> (r: Result<(), StablecoinError>)
    ensures
        match r {
            Ok(()) => {
                &&& transfer_authority_error(*old(st), caller) is None
                &&& *final(st) == (StablecoinState {
                    pending_authority: Some(new_authority),
                    ..*old(st)
                })
            },
            Err(e) => {
                &&& transfer_authority_error(*old(st), caller) == Some(e)
                &&& *final(st) == *old(st)
            },
        },
{
    if caller != st.authority {
        return Err(StablecoinError::Unauthorized);
    }
    st.pending_authority = Some(new_authority);
    Ok(())
}

/// Why accepting an authority transfer is refused, or `None` if it is owed
/// success.
pub open spec fn accept_authority_error(
    st: StablecoinState,
    caller: Addr,
) -> Option<StablecoinError> {
    if st.pending_authority is None {
        Some(StablecoinError::NoPendingAuthority)
    } else if st.pending_authority != Some(caller) {
        Some(StablecoinError::Unauthorized)
    } else {
        None
    }
}

/// Step two: the pending authority accepts, proving it controls the key.
/// The role swaps and the pending slot clears, so exactly one authority
/// holds at any time.
pub fn accept_authority(st: &mut StablecoinState, caller: Addr) -> (r: Result<
    (),
    StablecoinError,
>)
    ensures
        match r {
            Ok(()) => {
                &&& accept_authority_error(*old(st), caller) is None
                &&& *final(st) == (StablecoinState {
                    authority: caller,
                    pending_authority: None,
                    ..*old(st)
                })
            },
            Err(e) => {
                &&& accept_authority_error(*old(st), caller) == Some(e)
                &&& *final(st) == *old(st)
            },
        },
{
    let pending = match st.pending_authority {
        Some(a) => a,
        None => {
            return Err(StablecoinError::NoPendingAuthority);
        },
    };
    if pending != caller {
        return Err(StablecoinError::Unauthorized);
    }
    st.authority = pending;
    st.pending_authority = None;
    Ok(())
}

} // verus!
