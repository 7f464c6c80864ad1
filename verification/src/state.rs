//! Records of the control plane and their well-formedness invariants.
//!
//! Each struct stands for one persisted, independently addressed record,
//! keyed by an identifier the host derives from stable seed components and
//! the owning currency's identity. The host passes the records an operation
//! names; nothing here assumes shared mutable storage.

use vstd::prelude::*;

verus! {

/// Byte bound on a currency's name.
pub const MAX_NAME_LEN: usize = 32;
/// Byte bound on a currency's symbol.
pub const MAX_SYMBOL_LEN: usize = 10;
/// Byte bound on a currency's metadata URI.
pub const MAX_URI_LEN: usize = 200;
/// Byte bound on a blacklist reason.
pub const MAX_REASON_LEN: usize = 100;
/// Item bound on every batch operation.
pub const MAX_BATCH_SIZE: usize = 10;
/// Signer bound on a multisig configuration.
pub const MAX_SIGNERS: usize = 10;
/// Byte bound on a governance action's opaque payload.
pub const MAX_DATA_LEN: usize = 256;

/// A 32-byte account identity, packed into two machine words.
///
/// The host's addressing substrate hands out 32-byte identifiers; the
/// control plane only ever compares them for equality, so it carries them
/// as two `u128` halves (little-endian: `lo` holds bytes 0..16).
#[derive(Clone, Copy, Debug, PartialEq, Eq, Structural)]
pub struct Addr {
    pub lo: u128,
    pub hi: u128,
}

impl Addr {
    /// Builds an identity from its two halves.
    pub fn new(lo: u128, hi: u128) -> (r: Addr)
        ensures
            r.lo == lo,
            r.hi == hi,
    {
        Addr { lo, hi }
    }
}

/// Capability flags grantable to one holder for one currency.
#[derive(Clone, Copy, Debug, Default, PartialEq, Eq, Structural)]
pub struct RoleFlags {
    pub is_minter: bool,
    pub is_burner: bool,
    pub is_pauser: bool,
    pub is_blacklister: bool,
    pub is_seizer: bool,
}

impl RoleFlags {
    /// All five capabilities granted.
    pub fn all() -> (r: RoleFlags)
        ensures
            r.is_minter && r.is_burner && r.is_pauser && r.is_blacklister && r.is_seizer,
    {
        RoleFlags {
            is_minter: true,
            is_burner: true,
            is_pauser: true,
            is_blacklister: true,
            is_seizer: true,
        }
    }

    /// No capability granted.
    pub fn none() -> (r: RoleFlags)
        ensures
            !r.is_minter && !r.is_burner && !r.is_pauser && !r.is_blacklister && !r.is_seizer,
    {
        RoleFlags {
            is_minter: false,
            is_burner: false,
            is_pauser: false,
            is_blacklister: false,
            is_seizer: false,
        }
    }
}

/// A byte-for-byte copy of a bounded byte string.
pub fn copy_bytes(v: &Vec<u8>) -> (r: Vec<u8>)
    ensures
        r@ == v@,
{
    let mut r: Vec<u8> = Vec::new();
    let mut i: usize = 0;
    while i < v.len()
        invariant
            i <= v@.len(),
            r@ =~= v@.subrange(0, i as int),
        decreases v@.len() - i,
    {
        r.push(v[i]);
        i += 1;
    }
    proof {
        assert(r@ =~= v@);
    }
    r
}

/// One issued currency's global control state.
#[derive(Clone, Debug, PartialEq, Eq)]
pub struct StablecoinState {
    /// Master authority: may update roles, quotas, caps and governance
    /// configuration, and may hand the role off in two steps.
    pub authority: Addr,
    /// The token mint this record controls.
    pub mint: Addr,
    /// Metadata, byte-bounded.
    pub name: Vec<u8>,
    pub symbol: Vec<u8>,
    pub uri: Vec<u8>,
    pub decimals: u8,
    /// Feature flags, immutable after initialization.
    pub enable_permanent_delegate: bool,
    pub enable_transfer_hook: bool,
    pub default_account_frozen: bool,
    /// Operational state.
    pub paused: bool,
    pub total_minted: u64,
    pub total_burned: u64,
    /// Supply cap; 0 means uncapped.
    pub max_supply: u64,
    /// Derivation bump of this record's address.
    pub bump: u8,
    /// Two-step authority transfer: the pending authority must accept.
    pub pending_authority: Option<Addr>,
}

impl StablecoinState {
    /// Tokens in circulation: minted and not yet burned.
    pub open spec fn circulating(self) -> int {
        self.total_minted - self.total_burned
    }

    /// Both compliance features are configured, so blacklist and seizure
    /// operations are available.
    pub open spec fn compliance_tier(self) -> bool {
        self.enable_permanent_delegate && self.enable_transfer_hook
    }

    /// Well-formedness: burned never exceeds minted, a non-zero cap bounds
    /// the circulating supply, and metadata respects its byte bounds.
    pub open spec fn wf(self) -> bool {
        &&& self.total_burned <= self.total_minted
        &&& self.max_supply > 0 ==> self.circulating() <= self.max_supply
        &&& self.name@.len() <= MAX_NAME_LEN
        &&& self.symbol@.len() <= MAX_SYMBOL_LEN
        &&& self.uri@.len() <= MAX_URI_LEN
    }

    /// Whether this currency is on the compliance tier.
    pub fn is_sss2(&self) -> (r: bool)
        ensures
            r == self.compliance_tier(),
    {
        self.enable_permanent_delegate && self.enable_transfer_hook
    }
}

/// Capability grant to one holder for one currency; absence of the record
/// means no capabilities.
#[derive(Clone, Copy, Debug, PartialEq, Eq, Structural)]
pub struct RoleAccount {
    pub stablecoin: Addr,
    pub holder: Addr,
    pub roles: RoleFlags,
}

/// Per-minter issuance ceiling and counters.
#[derive(Clone, Copy, Debug, PartialEq, Eq, Structural)]
pub struct MinterInfo {
    pub stablecoin: Addr,
    pub minter: Addr,
    /// Ceiling on the active counter.
    pub quota: u64,
    /// Lifetime total this minter has minted; never decreases.
    pub minted_amount: u64,
    /// Epoch length in seconds; 0 (or negative) means lifetime mode.
    pub epoch_duration: i64,
    /// Start of the current epoch.
    pub epoch_start: i64,
    /// Minted inside the current epoch.
    pub minted_this_epoch: u64,
}

impl MinterInfo {
    /// A fresh record for a minter with nothing granted or minted yet.
    pub fn new(stablecoin: Addr, minter: Addr) -> (r: MinterInfo)
        ensures
            r == (MinterInfo {
                stablecoin,
                minter,
                quota: 0u64,
                minted_amount: 0u64,
                epoch_duration: 0i64,
                epoch_start: 0i64,
                minted_this_epoch: 0u64,
            }),
    {
        MinterInfo {
            stablecoin,
            minter,
            quota: 0,
            minted_amount: 0,
            epoch_duration: 0,
            epoch_start: 0,
            minted_this_epoch: 0,
        }
    }
}

/// Compliance flag on an address; the record's existence is the flag.
#[derive(Clone, Debug, PartialEq, Eq)]
pub struct BlacklistEntry {
    pub stablecoin: Addr,
    pub address: Addr,
    /// Bounded, informational reason.
    pub reason: Vec<u8>,
    pub blacklisted_at: i64,
    pub blacklisted_by: Addr,
}

impl BlacklistEntry {
    /// Well-formedness: the reason respects its byte bound.
    pub open spec fn wf(self) -> bool {
        self.reason@.len() <= MAX_REASON_LEN
    }
}

/// No signer occurs twice in the list.
pub open spec fn distinct_signers(s: Seq<Addr>) -> bool {
    forall|i: int, j: int| #![trigger s[i], s[j]] 0 <= i < j < s.len() ==> s[i] != s[j]
}

/// Governance signer set for a currency.
#[derive(Clone, Debug, PartialEq, Eq)]
pub struct MultisigConfig {
    pub stablecoin: Addr,
    pub signers: Vec<Addr>,
    pub threshold: u8,
    /// Next proposal identifier; strictly increasing.
    pub proposal_count: u64,
}

impl MultisigConfig {
    /// Well-formedness: a non-empty, bounded set of distinct signers and a
    /// threshold within it. Distinctness keeps the threshold attainable:
    /// every signer contributes one approval slot.
    pub open spec fn wf(self) -> bool {
        &&& 1 <= self.signers@.len() <= MAX_SIGNERS
        &&& 0 < self.threshold <= self.signers@.len()
        &&& distinct_signers(self.signers@)
    }
}

/// Action type a governance path may carry. The two state machines share
/// this enumeration and its opaque payload format.
#[derive(Clone, Copy, Debug, PartialEq, Eq, Structural)]
pub enum InstructionType {
    Pause,
    Unpause,
    UpdateRoles,
    UpdateMinter,
    TransferAuthority,
    AddToBlacklist,
    RemoveFromBlacklist,
    UpdateSupplyCap,
    ConfigureTransferLimits,
}

/// One pending multi-signer governance action.
#[derive(Clone, Debug, PartialEq, Eq)]
pub struct Proposal {
    pub stablecoin: Addr,
    pub proposal_id: u64,
    pub proposer: Addr,
    pub instruction_type: InstructionType,
    /// Opaque payload, interpreted at execution time.
    pub data: Vec<u8>,
    /// Per-signer approval flags, indexed like the multisig signer list.
    pub approvals: Vec<bool>,
    pub approval_count: u8,
    pub executed: bool,
    pub cancelled: bool,
    pub created_at: i64,
}

/// Delay policy for a currency's timelocked governance path.
#[derive(Clone, Copy, Debug, PartialEq, Eq, Structural)]
pub struct TimelockConfig {
    pub stablecoin: Addr,
    /// Seconds between proposing and the earliest execution; never negative.
    pub delay: i64,
    pub enabled: bool,
}

/// One delayed governance action awaiting its earliest execution time.
#[derive(Clone, Debug, PartialEq, Eq)]
pub struct TimelockOperation {
    pub stablecoin: Addr,
    pub op_id: u64,
    pub op_type: InstructionType,
    /// Opaque payload, interpreted at execution time.
    pub data: Vec<u8>,
    /// Earliest execution time, fixed at proposal time.
    pub eta: i64,
    pub proposer: Addr,
    pub executed: bool,
    pub cancelled: bool,
}

/// Per-transfer and rolling per-day caps for compliance-tier currencies.
#[derive(Clone, Copy, Debug, PartialEq, Eq, Structural)]
pub struct TransferLimitConfig {
    pub stablecoin: Addr,
    pub max_per_tx: u64,
    pub max_per_day: u64,
    pub daily_transferred: u64,
    /// Start of the rolling daily window; 0 marks a record not yet
    /// initialized.
    pub day_start: i64,
}

impl TransferLimitConfig {
    /// A fresh, not yet configured record.
    pub fn new(stablecoin: Addr) -> (r: TransferLimitConfig)
        ensures
            r == (TransferLimitConfig {
                stablecoin,
                max_per_tx: 0u64,
                max_per_day: 0u64,
                daily_transferred: 0u64,
                day_start: 0i64,
            }),
    {
        TransferLimitConfig {
            stablecoin,
            max_per_tx: 0,
            max_per_day: 0,
            daily_transferred: 0,
            day_start: 0,
        }
    }
}

} // verus!
