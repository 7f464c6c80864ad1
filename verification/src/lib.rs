//! Control plane of an issuance-controlled digital currency.
//!
//! The crate holds the decision logic of the system: role-based capability
//! checks, mint/burn issuance control with per-minter quotas, epoch-based
//! quota reset and a global supply cap, a multi-signer proposal state
//! machine, a time-delayed operation state machine, a blacklist/seizure
//! compliance gate, and bounded all-or-nothing batch variants.
//!
//! Every record the logic touches is modelled as a plain value
//! ([`state::StablecoinState`], [`state::RoleAccount`], ...). The hosting
//! platform owns record storage, address derivation, signature checking and
//! the token-transfer module; it loads the records an operation names, calls
//! the matching function here, and persists the records only when both the
//! function and the external token action succeed, discarding them as a unit
//! otherwise (call-level atomicity). Operations gated on the current
//! authority fail with `Unauthorized` when the caller is someone else.

use vstd::prelude::*;

pub mod authority;
pub mod batch;
pub mod blacklist;
pub mod dispatch;
pub mod error;
pub mod freeze;
pub mod initialize;
pub mod issuance;
pub mod multisig;
pub mod pause;
pub mod roles;
pub mod seize;
pub mod state;
pub mod timelock;
pub mod token;
pub mod transfer_limits;

verus! {

} // verus!
