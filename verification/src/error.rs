//! Failure taxonomy of the control plane.
//!
//! Every operation is all-or-nothing: on any of these errors the caller's
//! records are left exactly as they were, and the host discards the whole
//! invocation. None is retried internally.

use vstd::prelude::*;

verus! {

/// Reason an operation was refused.
#[derive(Clone, Copy, Debug, PartialEq, Eq, Structural)]
pub enum StablecoinError {
    /// Caller lacks the required capability, or is not the authority the
    /// operation demands.
    Unauthorized,
    /// The currency is paused; mint and burn are halted.
    Paused,
    /// The currency was not configured with both the permanent-delegate and
    /// transfer-hook features, so compliance operations are unavailable.
    ComplianceNotEnabled,
    /// The address already carries a blacklist entry.
    AlreadyBlacklisted,
    /// The address carries no blacklist entry.
    NotBlacklisted,
    /// The mint would push the minter's active counter over its quota.
    QuotaExceeded,
    /// An amount (or a batch) must be greater than zero.
    ZeroAmount,
    /// Name longer than the 32-byte bound.
    NameTooLong,
    /// Symbol longer than the 10-byte bound.
    SymbolTooLong,
    /// URI longer than the 200-byte bound.
    UriTooLong,
    /// Blacklist reason longer than the 100-byte bound.
    ReasonTooLong,
    /// The address is blacklisted.
    Blacklisted,
    /// A counter would overflow or underflow; the call fails closed.
    MathOverflow,
    /// A role or record configuration is invalid.
    InvalidRoleConfig,
    /// The mint would push the circulating supply over the supply cap.
    SupplyCapExceeded,
    /// A new supply cap may not be below the circulating supply.
    SupplyCapBelowCirculation,
    /// A batch holds more items than the fixed maximum.
    BatchTooLarge,
    /// Caller is not in the multisig signer set.
    NotAMultisigSigner,
    /// This signer already approved the proposal.
    AlreadyApproved,
    /// The proposal was already executed and is terminal.
    ProposalAlreadyExecuted,
    /// The proposal was cancelled and is terminal.
    ProposalCancelled,
    /// Fewer approvals than the multisig threshold.
    InsufficientApprovals,
    /// Threshold must be positive and at most the signer count.
    InvalidThreshold,
    /// More signers than the fixed maximum.
    TooManySigners,
    /// The signer list names the same signer twice; signers are unique.
    DuplicateSigner,
    /// The timelocked operation's delay has not elapsed.
    TimelockNotReady,
    /// The timelock is not enabled for this currency.
    TimelockNotEnabled,
    /// The timelocked operation was already executed and is terminal.
    OperationAlreadyExecuted,
    /// The timelocked operation was cancelled and is terminal.
    OperationCancelled,
    /// A transfer would exceed the configured transfer limits.
    TransferLimitExceeded,
    /// A timelock delay must be non-negative.
    InvalidTimelockDelay,
    /// No authority transfer is pending.
    NoPendingAuthority,
}

} // verus!
