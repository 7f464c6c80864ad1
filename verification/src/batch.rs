//! Bounded batch variants of mint, freeze and blacklist.
//!
//! Every batch is all-or-nothing per call: the list is bounded and checked
//! before any item is touched, amounts are pre-summed for one combined
//! quota and supply-cap check, and on any error no record changes at all.

use vstd::prelude::*;

use crate::error::StablecoinError;
use crate::issuance::{config_after_mint, mint_error, mint_tokens, minter_after_mint};
use crate::state::{
    Addr, BlacklistEntry, MinterInfo, RoleAccount, StablecoinState, MAX_BATCH_SIZE, MAX_REASON_LEN,
};

verus! {

/// One batch-mint item: an amount for the recipient the host routes by
/// index among the accounts it passed along.
#[derive(Clone, Copy, Debug, PartialEq, Eq, Structural)]
pub struct BatchMintItem {
    pub recipient_index: u8,
    pub amount: u64,
}

/// One batch-blacklist item: the address to flag and a bounded reason.
#[derive(Clone, Debug, PartialEq, Eq)]
pub struct BatchBlacklistItem {
    pub address: Addr,
    pub reason: Vec<u8>,
}

/// Left-to-right scan of the batch amounts: the combined total, or the
/// first refusal (a zero amount, or a sum past the counter range).
pub open spec fn batch_scan(items: Seq<BatchMintItem>, acc: int) -> Result<int, StablecoinError>
    decreases items.len(),
{
    if items.len() == 0 {
        Ok(acc)
    } else if items[0].amount == 0 {
        Err(StablecoinError::ZeroAmount)
    } else if acc + items[0].amount > u64::MAX {
        Err(StablecoinError::MathOverflow)
    } else {
        batch_scan(items.skip(1), acc + items[0].amount)
    }
}

/// A successful scan of a non-empty batch yields more than it started with.
pub proof fn lemma_batch_scan_grows(items: Seq<BatchMintItem>, acc: int, total: int)
    requires
        items.len() > 0,
        batch_scan(items, acc) == Ok::<int, StablecoinError>(total),
    ensures
        acc < total <= u64::MAX,
    decreases items.len(),
{
    if items.len() == 1 {
        assert(items.skip(1).len() == 0);
    } else {
        lemma_batch_scan_grows(items.skip(1), acc + items[0].amount, total);
    }
}

/// Why a batch mint is refused, or `None` if it is owed success. After the
/// list-shape and gate checks, the combined total is charged exactly like a
/// single mint of that amount.
pub open spec fn batch_mint_error(
    st: StablecoinState,
    role: RoleAccount,
    mi: MinterInfo,
    items: Seq<BatchMintItem>,
    now: i64,
) -> Option<StablecoinError> {
    if items.len() > MAX_BATCH_SIZE {
        Some(StablecoinError::BatchTooLarge)
    } else if items.len() == 0 {
        Some(StablecoinError::ZeroAmount)
    } else if st.paused {
        Some(StablecoinError::Paused)
    } else if !role.roles.is_minter {
        Some(StablecoinError::Unauthorized)
    } else {
        match batch_scan(items, 0) {
            Err(e) => Some(e),
            Ok(total) => mint_error(st, role, mi, total as u64, now),
        }
    }
}

/// Mint to up to [`MAX_BATCH_SIZE`] recipients in one call.
///
/// The combined amount passes a single quota and supply-cap check; on
/// success the counters advance by the combined amount and the host credits
/// each recipient. On any error — including a fault on one item — nothing
/// changes.
pub fn batch_mint(
    st: &mut StablecoinState,
    role: &RoleAccount,
    mi: &mut MinterInfo,
    items: &Vec<BatchMintItem>,
    now: i64,
) -> (r: Result<(), StablecoinError>)
    requires
        old(st).wf(),
    ensures
        match r {
            Ok(()) => {
                &&& batch_mint_error(*old(st), *role, *old(mi), items@, now) is None
                &&& batch_scan(items@, 0) matches Ok(total) && *final(st) == config_after_mint(
                    *old(st),
                    total as u64,
                ) && *final(mi) == minter_after_mint(*old(mi), total as u64, now)
                &&& final(st).wf()
            },
            Err(e) => {
                &&& batch_mint_error(*old(st), *role, *old(mi), items@, now) == Some(e)
                &&& *final(st) == *old(st)
                &&& *final(mi) == *old(mi)
            },
        },
{
    if items.len() > MAX_BATCH_SIZE {
        return Err(StablecoinError::BatchTooLarge);
    }
    if items.len() == 0 {
        return Err(StablecoinError::ZeroAmount);
    }
    if st.paused {
        return Err(StablecoinError::Paused);
    }
    if !role.roles.is_minter {
        return Err(StablecoinError::Unauthorized);
    }

    // Combined amount for the single quota and supply-cap check.
    let mut total: u64 = 0;
    let mut i: usize = 0;
    proof {
        assert(items@.skip(0) =~= items@);
    }
    while i < items.len()
        invariant
            i <= items@.len(),
            0 < items@.len() <= MAX_BATCH_SIZE,
            !st.paused,
            role.roles.is_minter,
            *st == *old(st),
            *mi == *old(mi),
            batch_scan(items@, 0) == batch_scan(items@.skip(i as int), total as int),
        decreases items@.len() - i,
    {
        let amount = items[i].amount;
        proof {
            assert(items@.skip(i as int)[0] == items@[i as int]);
        }
        if amount == 0 {
            return Err(StablecoinError::ZeroAmount);
        }
        total = match total.checked_add(amount) {
            Some(t) => t,
            None => {
                return Err(StablecoinError::MathOverflow);
            },
        };
        proof {
            assert(items@.skip(i as int).skip(1) =~= items@.skip(i as int + 1));
        }
        i += 1;
    }
    proof {
        assert(items@.skip(items@.len() as int).len() == 0);
        lemma_batch_scan_grows(items@, 0, total as int);
    }

    mint_tokens(st, role, mi, total, now)
}

/// If a non-empty, gated batch's combined total clears the supply cap but
/// not the quota, the whole call is refused with `QuotaExceeded`.
pub proof fn lemma_batch_mint_quota_gate(
    st: StablecoinState,
    role: RoleAccount,
    mi: MinterInfo,
    items: Seq<BatchMintItem>,
    now: i64,
    total: int,
)
    requires
        st.wf(),
        1 <= items.len() <= MAX_BATCH_SIZE,
        !st.paused,
        role.roles.is_minter,
        batch_scan(items, 0) == Ok::<int, StablecoinError>(total),
        st.max_supply > 0 ==> st.circulating() + total <= st.max_supply,
        crate::issuance::active_counter(mi, now) + total <= u64::MAX,
        crate::issuance::active_counter(mi, now) + total > mi.quota,
    ensures
        batch_mint_error(st, role, mi, items, now) == Some(StablecoinError::QuotaExceeded),
{
    lemma_batch_scan_grows(items, 0, total);
}

/// Why a batch freeze is refused, or `None` if the host may freeze each
/// listed account.
pub open spec fn batch_freeze_error(role: RoleAccount, count: int) -> Option<StablecoinError> {
    if count > MAX_BATCH_SIZE {
        Some(StablecoinError::BatchTooLarge)
    } else if count == 0 {
        Some(StablecoinError::ZeroAmount)
    } else if !role.roles.is_pauser {
        Some(StablecoinError::Unauthorized)
    } else {
        None
    }
}

/// Gate a batch freeze of the accounts the host routes by the given
/// indices. On success the host freezes each target through the external
/// token-transfer module.
pub fn batch_freeze(role: &RoleAccount, indices: &Vec<u8>) -> (r: Result<(), StablecoinError>)
    ensures
        match r {
            Ok(()) => batch_freeze_error(*role, indices@.len() as int) is None,
            Err(e) => batch_freeze_error(*role, indices@.len() as int) == Some(e),
        },
{
    if indices.len() > MAX_BATCH_SIZE {
        return Err(StablecoinError::BatchTooLarge);
    }
    if indices.len() == 0 {
        return Err(StablecoinError::ZeroAmount);
    }
    if !role.roles.is_pauser {
        return Err(StablecoinError::Unauthorized);
    }
    Ok(())
}

/// The blacklist record a batch item produces.
pub open spec fn entry_matches(
    e: BlacklistEntry,
    stablecoin: Addr,
    item: BatchBlacklistItem,
    caller: Addr,
    now: i64,
) -> bool {
    &&& e.stablecoin == stablecoin
    &&& e.address == item.address
    &&& e.reason@ == item.reason@
    &&& e.blacklisted_at == now
    &&& e.blacklisted_by == caller
}

/// Why a batch blacklist is refused, or `None` if it is owed success.
pub open spec fn batch_blacklist_error(
    st: StablecoinState,
    role: RoleAccount,
    items: Seq<BatchBlacklistItem>,
) -> Option<StablecoinError> {
    if items.len() > MAX_BATCH_SIZE {
        Some(StablecoinError::BatchTooLarge)
    } else if items.len() == 0 {
        Some(StablecoinError::ZeroAmount)
    } else if !st.compliance_tier() {
        Some(StablecoinError::ComplianceNotEnabled)
    } else if !role.roles.is_blacklister {
        Some(StablecoinError::Unauthorized)
    } else if exists|i: int| 0 <= i < items.len() && items[i].reason@.len() > MAX_REASON_LEN {
        Some(StablecoinError::ReasonTooLong)
    } else {
        None
    }
}

/// Blacklist up to [`MAX_BATCH_SIZE`] addresses in one call
/// (compliance-tier currencies only).
///
/// On success one record per item comes back, stamped with the caller and
/// the current time, for the host to store under each item's derived
/// address. On any error no record is produced.
pub fn batch_blacklist(
    st: &StablecoinState,
    role: &RoleAccount,
    stablecoin_id: Addr,
    caller: Addr,
    items: &Vec<BatchBlacklistItem>,
    now: i64,
) -> (r: Result<Vec<BlacklistEntry>, StablecoinError>)
    ensures
        match r {
            Ok(entries) => {
                &&& batch_blacklist_error(*st, *role, items@) is None
                &&& entries@.len() == items@.len()
                &&& forall|i: int|
                    0 <= i < items@.len() ==> entry_matches(
                        #[trigger] entries@[i],
                        stablecoin_id,
                        items@[i],
                        caller,
                        now,
                    )
            },
            Err(e) => batch_blacklist_error(*st, *role, items@) == Some(e),
        },
{
    if items.len() > MAX_BATCH_SIZE {
        return Err(StablecoinError::BatchTooLarge);
    }
    if items.len() == 0 {
        return Err(StablecoinError::ZeroAmount);
    }
    if !st.is_sss2() {
        return Err(StablecoinError::ComplianceNotEnabled);
    }
    if !role.roles.is_blacklister {
        return Err(StablecoinError::Unauthorized);
    }

    let mut entries: Vec<BlacklistEntry> = Vec::new();
    let mut i: usize = 0;
    while i < items.len()
        invariant
            i <= items@.len(),
            0 < items@.len() <= MAX_BATCH_SIZE,
            st.compliance_tier(),
            role.roles.is_blacklister,
            entries@.len() == i,
            forall|j: int|
                0 <= j < i ==> entry_matches(
                    #[trigger] entries@[j],
                    stablecoin_id,
                    items@[j],
                    caller,
                    now,
                ),
            forall|j: int| 0 <= j < i ==> items@[j].reason@.len() <= MAX_REASON_LEN,
        decreases items@.len() - i,
    {
        if items[i].reason.len() > MAX_REASON_LEN {
            proof {
                assert(items@[i as int].reason@.len() > MAX_REASON_LEN);
            }
            return Err(StablecoinError::ReasonTooLong);
        }
        let entry = BlacklistEntry {
            stablecoin: stablecoin_id,
            address: items[i].address,
            reason: crate::state::copy_bytes(&items[i].reason),
            blacklisted_at: now,
            blacklisted_by: caller,
        };
        entries.push(entry);
        i += 1;
    }
    Ok(entries)
}

} // verus!
