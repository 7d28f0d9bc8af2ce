//! Error taxonomy of the vault.
//!
//! Every fallible operation of the vault reports one of these variants.
//! The on-chain error codes belong to the contract shell around this
//! library; here the variants are plain values that the contracts of the
//! operations name exactly.
use vstd::prelude::*;

verus! {

#[derive(Clone, Copy, Debug, PartialEq, Eq, PartialOrd, Ord, Structural)]
pub enum VaultError {
    // --- Lifecycle -----------------------------------------------------
    /// `initialize` was called on a vault that already holds a configuration.
    AlreadyInitialized,
    /// An operation other than `initialize` ran before the vault held a
    /// configuration.
    NotInitialized,
    // --- Signer / threshold configuration -------------------------------
    /// The signer list of `initialize` or of an `UpdateSigners` action was empty.
    EmptySignerSet,
    /// The signer list held the same address more than once.
    DuplicateSigner,
    /// The threshold was zero or greater than the number of signers, or the
    /// signer list was longer than [`crate::types::MAX_SIGNERS`].
    InvalidThreshold,
    /// An address expected to be a current signer was not one.
    SignerNotFound,
    // --- Timelock --------------------------------------------------------
    /// `timelock_blocks` exceeded [`crate::types::MAX_TIMELOCK_LEDGERS`].
    InvalidTimelockDuration,
    /// Execution was attempted before `executable_after_ledger`.
    TimelockNotExpired,
    // --- Proposal lifecycle ----------------------------------------------
    /// No proposal is stored under the requested id.
    ProposalNotFound,
    /// An approval was attempted on a proposal that is not `Pending`.
    ProposalNotPending,
    /// Execution was attempted on a proposal that is not `Ready`.
    ProposalNotReady,
    /// A signer approved a proposal that it had already approved.
    DuplicateApproval,
    /// The proposal held fewer approvals than the threshold at execution.
    InsufficientApprovals,
    // --- Spending limits ---------------------------------------------------
    /// No spending limit is configured for an asset where one is required.
    SpendingLimitNotConfigured,
    /// A transfer would exceed the per-period spending limit of its asset.
    SpendingLimitExceeded,
    // --- Auth / factory ------------------------------------------------
    /// An authorization check failed.
    Unauthorized,
    /// A child vault could not be deployed and initialized.
    DeploymentFailed,
    // --- Arithmetic --------------------------------------------------------
    /// An amount calculation left the range of `i128`.
    ArithmeticError,
    // --- Action payload ------------------------------------------------
    /// An argument of a generic invocation did not decode into a host value.
    InvalidActionPayload,
}

} // verus!
