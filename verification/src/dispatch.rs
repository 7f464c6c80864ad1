//! The governance action interpreter, shared by both governance paths.
//!
//! A proposal and a timelocked operation carry the same action enumeration
//! and the same opaque little-endian payload; interpreting them once here
//! keeps the two state machines from diverging. Actions that need further
//! records than the currency's own are recorded, not executed, and left to
//! the caller — an explicit policy, not a default.

use vstd::prelude::*;

use crate::error::StablecoinError;
use crate::state::{Addr, InstructionType, StablecoinState};

verus! {

/// The unsigned value of the first 8 bytes of `s`, little-endian.
pub open spec fn le_u64(s: Seq<u8>) -> int
    recommends
        s.len() >= 8,
{
    s[0] + s[1] * 0x100 + s[2] * 0x1_0000 + s[3] * 0x100_0000 + s[4] * 0x1_0000_0000 + s[5]
        * 0x100_0000_0000 + s[6] * 0x1_0000_0000_0000 + s[7] * 0x100_0000_0000_0000
}

/// The unsigned value of the 16 bytes of `s` starting at `off`,
/// little-endian.
pub open spec fn le_u128_at(s: Seq<u8>, off: int) -> int
    recommends
        0 <= off,
        s.len() >= off + 16,
{
    s[off] + s[off + 1] * 0x100 + s[off + 2] * 0x1_0000 + s[off + 3] * 0x100_0000 + s[off + 4]
        * 0x1_0000_0000 + s[off + 5] * 0x100_0000_0000 + s[off + 6] * 0x1_0000_0000_0000 + s[off
        + 7] * 0x100_0000_0000_0000 + s[off + 8] * 0x1_0000_0000_0000_0000 + s[off + 9]
        * 0x100_0000_0000_0000_0000 + s[off + 10] * 0x1_0000_0000_0000_0000_0000 + s[off + 11]
        * 0x100_0000_0000_0000_0000_0000 + s[off + 12] * 0x1_0000_0000_0000_0000_0000_0000 + s[off
        + 13] * 0x100_0000_0000_0000_0000_0000_0000 + s[off + 14]
        * 0x1_0000_0000_0000_0000_0000_0000_0000 + s[off + 15]
        * 0x100_0000_0000_0000_0000_0000_0000_0000
}

/// The 32-byte identity held in the first 32 bytes of `s`.
pub open spec fn addr_from_bytes(s: Seq<u8>) -> Addr
    recommends
        s.len() >= 32,
{
    Addr { lo: le_u128_at(s, 0) as u128, hi: le_u128_at(s, 16) as u128 }
}

/// Reads the little-endian `u64` at the front of a payload.
pub fn read_u64_le(data: &Vec<u8>) -> (r: u64)
    requires
        data@.len() >= 8,
    ensures
        r == le_u64(data@),
{
    (data[0] as u64) + (data[1] as u64) * 0x100 + (data[2] as u64) * 0x1_0000 + (data[3] as u64)
        * 0x100_0000 + (data[4] as u64) * 0x1_0000_0000 + (data[5] as u64) * 0x100_0000_0000 + (
    data[6] as u64) * 0x1_0000_0000_0000 + (data[7] as u64) * 0x100_0000_0000_0000
}

/// Reads the little-endian `u128` at `off` in a payload.
fn read_u128_le(data: &Vec<u8>, off: usize) -> (r: u128)
    requires
        data@.len() >= off + 16,
    ensures
        r == le_u128_at(data@, off as int),
{
    let n = data.len();
    proof {
        assert(off + 16 <= n);
    }
    (data[off] as u128) + (data[off + 1] as u128) * 0x100 + (data[off + 2] as u128) * 0x1_0000 + (
    data[off + 3] as u128) * 0x100_0000 + (data[off + 4] as u128) * 0x1_0000_0000 + (data[off + 5]
        as u128) * 0x100_0000_0000 + (data[off + 6] as u128) * 0x1_0000_0000_0000 + (data[off + 7]
        as u128) * 0x100_0000_0000_0000 + (data[off + 8] as u128) * 0x1_0000_0000_0000_0000 + (
    data[off + 9] as u128) * 0x100_0000_0000_0000_0000 + (data[off + 10] as u128)
        * 0x1_0000_0000_0000_0000_0000 + (data[off + 11] as u128) * 0x100_0000_0000_0000_0000_0000
        + (data[off + 12] as u128) * 0x1_0000_0000_0000_0000_0000_0000 + (data[off + 13] as u128)
        * 0x100_0000_0000_0000_0000_0000_0000 + (data[off + 14] as u128)
        * 0x1_0000_0000_0000_0000_0000_0000_0000 + (data[off + 15] as u128)
        * 0x100_0000_0000_0000_0000_0000_0000_0000
}

/// Reads the 32-byte identity at the front of a payload.
pub fn read_addr(data: &Vec<u8>) -> (r: Addr)
    requires
        data@.len() >= 32,
    ensures
        r == addr_from_bytes(data@),
{
    let lo = read_u128_le(data, 0);
    let hi = read_u128_le(data, 16);
    Addr { lo, hi }
}

/// Why interpreting `action` with payload `data` is refused, or `None` if
/// it applies cleanly.
pub open spec fn action_error(
    st: StablecoinState,
    action: InstructionType,
    data: Seq<u8>,
) -> Option<StablecoinError> {
    match action {
        InstructionType::UpdateSupplyCap => if data.len() >= 8 {
            let new_cap = le_u64(data);
            if new_cap > 0 && new_cap < st.circulating() {
                Some(StablecoinError::SupplyCapBelowCirculation)
            } else {
                None
            }
        } else {
            None
        },
        _ => None,
    }
}

/// The currency record after interpreting `action` with payload `data`.
///
/// Pause, unpause, supply-cap and authority-transfer actions are fully
/// interpreted; an authority transfer sets the pending authority, keeping
/// the two-step handshake. A payload too short for its action, and every
/// other action type, leaves the record as it is: recorded, not executed.
pub open spec fn state_after_action(
    st: StablecoinState,
    action: InstructionType,
    data: Seq<u8>,
) -> StablecoinState {
    match action {
        InstructionType::Pause => StablecoinState { paused: true, ..st },
        InstructionType::Unpause => StablecoinState { paused: false, ..st },
        InstructionType::UpdateSupplyCap => if data.len() >= 8 {
            StablecoinState { max_supply: le_u64(data) as u64, ..st }
        } else {
            st
        },
        InstructionType::TransferAuthority => if data.len() >= 32 {
            StablecoinState { pending_authority: Some(addr_from_bytes(data)), ..st }
        } else {
            st
        },
        _ => st,
    }
}

/// Interpret a governance action against the currency record. Both
/// governance paths execute through this one function.
pub fn apply_action(
    st: &mut StablecoinState,
    action: InstructionType,
    data: &Vec<u8>,
) -> (r: Result<(), StablecoinError>)
    requires
        old(st).wf(),
    ensures
        match r {
            Ok(()) => {
                &&& action_error(*old(st), action, data@) is None
                &&& *final(st) == state_after_action(*old(st), action, data@)
                &&& final(st).wf()
            },
            Err(e) => {
                &&& action_error(*old(st), action, data@) == Some(e)
                &&& *final(st) == *old(st)
            },
        },
{
    match action {
        InstructionType::Pause => {
            st.paused = true;
            Ok(())
        },
        InstructionType::Unpause => {
            st.paused = false;
            Ok(())
        },
        InstructionType::UpdateSupplyCap => {
            if data.len() >= 8 {
                let new_cap = read_u64_le(data);
                if new_cap > 0 {
                    let circulating = match st.total_minted.checked_sub(st.total_burned) {
                        Some(c) => c,
                        None => {
                            return Err(StablecoinError::MathOverflow);
                        },
                    };
                    if new_cap < circulating {
                        return Err(StablecoinError::SupplyCapBelowCirculation);
                    }
                }
                st.max_supply = new_cap;
            }
            Ok(())
        },
        InstructionType::TransferAuthority => {
            if data.len() >= 32 {
                let new_authority = read_addr(data);
                st.pending_authority = Some(new_authority);
            }
            Ok(())
        },
        _ => {
            // Recorded, not executed: these action types need further
            // records supplied by the caller at execution time.
            Ok(())
        },
    }
}

} // verus!
