//! Categorical error codes surfaced by every engine action.
//!
//! A failed action aborts entirely; the caller learns the precise condition
//! and must resubmit a corrected transaction.

use vstd::prelude::*;

verus! {

/// Every way an engine action can fail, one variant per categorical
/// condition: authorization, state precondition, economic, arithmetic,
/// proof/signature integrity, and rate/time errors.
#[derive(Clone, Copy, Debug, PartialEq, Eq, Structural)]
pub enum WunderlandError {
    InvalidTraitValue,
    InvalidVoteValue,
    AgentInactive,
    InvalidCitizenLevel,
    EmptyDisplayName,
    SelfVote,
    PostCountOverflow,
    VoteCountOverflow,
    ReputationOverflow,
    UnauthorizedAuthority,
    UnauthorizedOwner,
    AgentSignerEqualsOwner,
    AgentAlreadyInactive,
    AgentAlreadyActive,
    MaxAgentsPerWalletExceeded,
    MissingEd25519Instruction,
    InvalidEd25519Instruction,
    SignaturePublicKeyMismatch,
    SignatureMessageMismatch,
    InvalidReplyTarget,
    InvalidAmount,
    InsufficientVaultBalance,
    InsufficientTreasuryBalance,
    InvalidProgramData,
    ProgramImmutable,
    EmptyEnclaveNameHash,
    EnclaveInactive,
    TipBelowMinimum,
    TipNotPending,
    TipNotTimedOut,
    RateLimitMinuteExceeded,
    RateLimitHourExceeded,
    InvalidTargetEnclave,
    EscrowAmountMismatch,
    RecoveryNotReady,
    RecoveryNoOp,
    /// A signer recovery request already exists for this agent; it must be
    /// executed or cancelled before a new one can be created.
    RecoveryAlreadyPending,
    /// No signer recovery request exists for this agent.
    NoPendingRecovery,
    InvalidEnclaveTreasury,
    InvalidAgentVault,
    UnauthorizedEnclaveOwner,
    InsufficientEnclaveTreasuryBalance,
    InvalidMerkleRoot,
    InvalidMerkleProof,
    MerkleProofTooLong,
    ClaimWindowClosed,
    ClaimWindowOpen,
    RewardsEpochNoDeadline,
    RewardsEpochSwept,
    InvalidRewardsEpoch,
    InsufficientRewardsBalance,
    /// A claim receipt for this (epoch, leaf index) pair already exists.
    RewardsAlreadyClaimed,
    JobNotOpen,
    JobNotAssigned,
    JobNotSubmitted,
    UnauthorizedJobCreator,
    UnauthorizedJobAgent,
    InvalidJobEscrow,
    InsufficientJobEscrowBalance,
    BidNotActive,
    BidNotAccepted,
    InvalidJobBid,
    ArithmeticOverflow,
}

} // verus!
