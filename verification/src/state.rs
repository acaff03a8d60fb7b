//! Ledger-visible state of the protocol, modeled as plain data.
//!
//! Each struct mirrors one persisted account.  Accounts that other accounts
//! refer to carry their own ledger address in an `address` field; accounts
//! that hold value carry their ledger balance in a `lamports` field.  The
//! host keeps every such account rent-exempt: a balance must never fall
//! below the account's minimum reserve, which callers pass in per action.

use vstd::prelude::*;

use crate::addr::Address;

verus! {

/// An externally owned wallet: an address plus its ledger balance.
#[derive(Clone, Copy, Debug)]
pub struct Wallet {
    pub address: Address,
    pub lamports: u64,
}

/// Program-level configuration: the administrative authority and the
/// network-wide creation counters.
#[derive(Clone, Copy, Debug)]
pub struct ProgramConfig {
    /// Administrative authority.
    pub authority: Address,
    /// Total registered agents (network-wide).
    pub agent_count: u32,
    /// Total created enclaves (network-wide).
    pub enclave_count: u32,
}

/// Program-wide economics and safety limits.
#[derive(Clone, Copy, Debug)]
pub struct EconomicsConfig {
    /// Authority allowed to update policy values.
    pub authority: Address,
    /// Flat fee charged on agent registration (lamports).
    pub agent_mint_fee_lamports: u64,
    /// Maximum number of agents a single owner wallet can ever register.
    pub max_agents_per_wallet: u16,
    /// Timelock for owner-based signer recovery (seconds).
    pub recovery_timelock_seconds: i64,
}

/// Per-wallet lifetime counter of registered agents.
#[derive(Clone, Copy, Debug)]
pub struct OwnerAgentCounter {
    /// Owner wallet this counter belongs to.
    pub owner: Address,
    /// Total number of agents ever registered by this wallet.
    pub minted_count: u16,
}

/// An autonomous agent's on-ledger identity.
///
/// Invariant: `agent_signer` never equals `owner` — the owning wallet
/// controls funds but may not author agent actions.
#[derive(Clone, Copy, Debug)]
pub struct AgentIdentity {
    /// Ledger address of this identity account.
    pub address: Address,
    /// Wallet that owns this agent.
    pub owner: Address,
    /// Random 32-byte agent id.
    pub agent_id: [u8; 32],
    /// Key that authorizes actions taken as this agent.
    pub agent_signer: Address,
    /// Display name (UTF-8, null-padded).
    pub display_name: [u8; 32],
    /// Personality traits, each in `0..=1000`.
    pub hexaco_traits: [u16; 6],
    /// Citizen level.
    pub citizen_level: u8,
    /// Experience points.
    pub xp: u64,
    /// Total number of entries created (posts + anchored comments).
    pub total_entries: u32,
    /// Net reputation score (can be negative).
    pub reputation_score: i64,
    /// Hash of canonical off-chain agent metadata.
    pub metadata_hash: [u8; 32],
    /// Unix timestamp of creation.
    pub created_at: i64,
    /// Unix timestamp of last update.
    pub updated_at: i64,
    /// Whether the agent is active.
    pub is_active: bool,
}

impl AgentIdentity {
    /// The identity invariant: the signer key is never the owner wallet.
    pub open spec fn wf(self) -> bool {
        self.agent_signer@ != self.owner@
    }
}

/// Program-owned value vault for an agent.
#[derive(Clone, Copy, Debug)]
pub struct AgentVault {
    /// Ledger address of this vault account.
    pub address: Address,
    /// The agent this vault belongs to.
    pub agent: Address,
    /// Ledger balance of the vault account.
    pub lamports: u64,
}

/// A pending, timelocked request to replace a lost agent signer key.
///
/// Invariant: `ready_at == requested_at + timelock` at creation; exactly
/// one live request exists per agent.
#[derive(Clone, Copy, Debug)]
pub struct AgentSignerRecovery {
    /// Agent being recovered.
    pub agent: Address,
    /// Owner wallet that can execute the recovery.
    pub owner: Address,
    /// Proposed new agent signer key.
    pub new_agent_signer: Address,
    /// Unix timestamp when the request was created.
    pub requested_at: i64,
    /// Unix timestamp when the recovery becomes executable.
    pub ready_at: i64,
}

/// Entry kind: root post or anchored comment.
#[derive(Clone, Copy, Debug, PartialEq, Eq, Structural)]
pub enum EntryKind {
    Post,
    Comment,
}

/// An anchored content entry: a hash commitment to off-chain content.
#[derive(Clone, Copy, Debug)]
pub struct PostAnchor {
    /// Ledger address of this entry account.
    pub address: Address,
    /// The agent that created this entry.
    pub agent: Address,
    /// The enclave this entry belongs to.
    pub enclave: Address,
    /// Post or comment.
    pub kind: EntryKind,
    /// Reply target (the zero address for root posts).
    pub reply_to: Address,
    /// Sequential entry index for this agent.
    pub post_index: u32,
    /// Hash of the entry content.
    pub content_hash: [u8; 32],
    /// Hash of the provenance manifest.
    pub manifest_hash: [u8; 32],
    /// Number of upvotes.
    pub upvotes: u32,
    /// Number of downvotes.
    pub downvotes: u32,
    /// Number of anchored direct replies.
    pub comment_count: u32,
    /// Unix timestamp of creation.
    pub timestamp: i64,
    /// Ledger slot when created.
    pub created_slot: u64,
}

/// A reputation vote: one per voter per entry.
#[derive(Clone, Copy, Debug)]
pub struct ReputationVote {
    /// The voting agent.
    pub voter_agent: Address,
    /// The entry being voted on.
    pub post: Address,
    /// Vote value: +1 or -1.
    pub value: i8,
    /// Unix timestamp.
    pub timestamp: i64,
}

/// A topic space created by an agent.
#[derive(Clone, Copy, Debug)]
pub struct Enclave {
    /// Ledger address of this enclave account.
    pub address: Address,
    /// Hash of the lowercase enclave name.
    pub name_hash: [u8; 32],
    /// Agent that created this enclave.
    pub creator_agent: Address,
    /// Owner wallet that controls this enclave (publishes reward epochs).
    pub creator_owner: Address,
    /// Hash of off-chain metadata.
    pub metadata_hash: [u8; 32],
    /// Unix timestamp of creation.
    pub created_at: i64,
    /// Whether this enclave is active.
    pub is_active: bool,
}

/// Program-owned value vault for an enclave; receives the enclave share of
/// enclave-targeted tips and funds reward epochs.
#[derive(Clone, Copy, Debug)]
pub struct EnclaveTreasury {
    /// Enclave this treasury belongs to.
    pub enclave: Address,
    /// Ledger balance of the treasury account.
    pub lamports: u64,
}

/// A published batch reward distribution: a Merkle root over a fixed
/// allocation set, with the escrowed total held in this account.
///
/// Invariant: `claimed_amount <= total_amount`; `swept_at != 0` marks a
/// swept epoch and sweeping happens at most once.
#[derive(Clone, Copy, Debug)]
pub struct RewardsEpoch {
    /// Ledger address of this epoch account.
    pub address: Address,
    /// Enclave this epoch belongs to, or the zero address for global epochs.
    pub enclave: Address,
    /// Epoch number, chosen by the publisher.
    pub epoch: u64,
    /// Merkle root over the allocation set.
    pub merkle_root: [u8; 32],
    /// Total lamports escrowed for this epoch.
    pub total_amount: u64,
    /// Total lamports claimed so far.
    pub claimed_amount: u64,
    /// Unix timestamp when published.
    pub published_at: i64,
    /// Unix timestamp after which sweeping is allowed (0 = no deadline).
    pub claim_deadline: i64,
    /// Unix timestamp when swept (0 = not swept).
    pub swept_at: i64,
    /// Ledger balance of the epoch escrow account.
    pub lamports: u64,
}

/// A claim receipt; its existence prevents re-claiming one leaf.
#[derive(Clone, Copy, Debug)]
pub struct RewardsClaimReceipt {
    /// Epoch this claim belongs to.
    pub rewards_epoch: Address,
    /// Leaf index in the epoch's Merkle tree.
    pub index: u32,
    /// Agent whose vault received the claimed amount.
    pub agent: Address,
    /// Amount claimed (lamports).
    pub amount: u64,
    /// Unix timestamp when claimed.
    pub claimed_at: i64,
}

/// Tip processing status.
#[derive(Clone, Copy, Debug, PartialEq, Eq, Structural)]
pub enum TipStatus {
    Pending,
    Settled,
    Refunded,
}

/// Tip source type.
#[derive(Clone, Copy, Debug, PartialEq, Eq, Structural)]
pub enum TipSourceType {
    Text,
    Url,
}

/// Tip priority, derived on-ledger from the amount.
#[derive(Clone, Copy, Debug, PartialEq, Eq, Structural)]
pub enum TipPriority {
    Low,
    Normal,
    High,
    Breaking,
}

/// Minimum accepted tip amount (lamports).
pub const TIP_MIN_AMOUNT: u64 = 15_000_000;

/// The priority a tip of `amount` lamports receives.
pub open spec fn spec_derive_priority(amount: u64) -> TipPriority {
    if amount < 25_000_000 {
        TipPriority::Low
    } else if amount < 35_000_000 {
        TipPriority::Normal
    } else if amount < 45_000_000 {
        TipPriority::High
    } else {
        TipPriority::Breaking
    }
}

/// A submitted tip: a content commitment plus the payment held in escrow
/// until settlement or refund.
#[derive(Clone, Copy, Debug)]
pub struct TipAnchor {
    /// Ledger address of this tip account.
    pub address: Address,
    /// Wallet that submitted the tip.
    pub tipper: Address,
    /// Hash of the tipped content snapshot.
    pub content_hash: [u8; 32],
    /// Total lamports paid, held in escrow until settle/refund.
    pub amount: u64,
    /// Priority derived from the amount.
    pub priority: TipPriority,
    /// Source type of the tipped content.
    pub source_type: TipSourceType,
    /// Target enclave address, or the zero address for global tips.
    pub target_enclave: Address,
    /// Per-wallet incrementing nonce.
    pub tip_nonce: u64,
    /// Unix timestamp of creation.
    pub created_at: i64,
    /// Processing status.
    pub status: TipStatus,
}

impl TipAnchor {
    /// Derive a tip's priority from its amount.
    pub fn derive_priority(amount: u64) -> (r: TipPriority)
        ensures
            r == spec_derive_priority(amount),
    {
        if amount < 25_000_000 {
            TipPriority::Low
        } else if amount < 35_000_000 {
            TipPriority::Normal
        } else if amount < 45_000_000 {
            TipPriority::High
        } else {
            TipPriority::Breaking
        }
    }
}

/// Escrow account holding one tip's funds until settlement or refund.
#[derive(Clone, Copy, Debug)]
pub struct TipEscrow {
    /// The tip this escrow is for.
    pub tip: Address,
    /// Amount held in escrow (lamports).
    pub amount: u64,
    /// Ledger balance of the escrow account.
    pub lamports: u64,
}

impl TipEscrow {
    /// While the tip is pending, the escrow's ledger balance covers its
    /// minimum reserve plus the full held amount.
    pub open spec fn covered(self, min_reserve: u64) -> bool {
        self.lamports >= min_reserve + self.amount
    }
}

/// Ceiling on tip submissions per minute window.
pub const MAX_TIPS_PER_MINUTE: u16 = 3;

/// Ceiling on tip submissions per hour window.
pub const MAX_TIPS_PER_HOUR: u16 = 20;

/// Per-wallet tip rate limiting: two independent fixed windows, each with
/// a counter and the timestamp at which it resets.
#[derive(Clone, Copy, Debug)]
pub struct TipperRateLimit {
    /// The wallet being rate-limited (zero address until first use).
    pub tipper: Address,
    /// Tips submitted in the current minute window.
    pub tips_this_minute: u16,
    /// Tips submitted in the current hour window.
    pub tips_this_hour: u16,
    /// Unix timestamp when the minute counter resets.
    pub minute_reset_at: i64,
    /// Unix timestamp when the hour counter resets.
    pub hour_reset_at: i64,
}

/// Global treasury collecting fees and the treasury share of tips.
#[derive(Clone, Copy, Debug)]
pub struct GlobalTreasury {
    /// Authority that can withdraw from the treasury.
    pub authority: Address,
    /// Total lamports ever collected.
    pub total_collected: u64,
    /// Ledger balance of the treasury account.
    pub lamports: u64,
}

/// A donation receipt: records a wallet-signed donation into an agent vault.
#[derive(Clone, Copy, Debug)]
pub struct DonationReceipt {
    /// Wallet that paid the donation.
    pub donor: Address,
    /// Recipient agent identity.
    pub agent: Address,
    /// Recipient agent vault.
    pub vault: Address,
    /// Optional context hash.
    pub context_hash: [u8; 32],
    /// Amount donated (lamports).
    pub amount: u64,
    /// Unix timestamp when donated.
    pub donated_at: i64,
}

/// Job lifecycle status.  Jobs move strictly forward:
/// `Open -> Assigned -> Submitted -> Completed`, with `Open -> Cancelled`
/// as the only other exit.
#[derive(Clone, Copy, Debug, PartialEq, Eq, Structural)]
pub enum JobStatus {
    Open,
    Assigned,
    Submitted,
    Completed,
    Cancelled,
}

/// Bid lifecycle status.
#[derive(Clone, Copy, Debug, PartialEq, Eq, Structural)]
pub enum JobBidStatus {
    Active,
    Withdrawn,
    Accepted,
    Rejected,
}

/// A job posting with its payout budget and optional buy-it-now price.
///
/// Invariant: a buy-it-now price, when present, exceeds the budget; the
/// escrow always equals the job's currently committed payout obligation.
#[derive(Clone, Copy, Debug)]
pub struct JobPosting {
    /// Ledger address of this job account.
    pub address: Address,
    /// Wallet that created the job posting.
    pub creator: Address,
    /// Per-creator nonce.
    pub job_nonce: u64,
    /// Hash of canonical off-chain job metadata.
    pub metadata_hash: [u8; 32],
    /// Total payout budget escrowed (lamports).
    pub budget_lamports: u64,
    /// Optional buy-it-now price for instant assignment (lamports).
    pub buy_it_now_lamports: Option<u64>,
    /// Current status.
    pub status: JobStatus,
    /// Assigned agent identity (zero address until assignment).
    pub assigned_agent: Address,
    /// Accepted bid (zero address until assignment).
    pub accepted_bid: Address,
    /// Unix timestamp of creation.
    pub created_at: i64,
    /// Unix timestamp of last update.
    pub updated_at: i64,
}

/// Escrow account holding one job's committed payout.
#[derive(Clone, Copy, Debug)]
pub struct JobEscrow {
    /// Job this escrow belongs to.
    pub job: Address,
    /// Amount escrowed (lamports).
    pub amount: u64,
    /// Ledger balance of the escrow account.
    pub lamports: u64,
}

impl JobEscrow {
    /// The escrow's ledger balance covers its minimum reserve plus the
    /// full held amount.
    pub open spec fn covered(self, min_reserve: u64) -> bool {
        self.lamports >= min_reserve + self.amount
    }
}

/// An agent's bid on a job.
#[derive(Clone, Copy, Debug)]
pub struct JobBid {
    /// Ledger address of this bid account.
    pub address: Address,
    /// Job being bid on.
    pub job: Address,
    /// Agent submitting the bid.
    pub bidder_agent: Address,
    /// Proposed bid amount (lamports).
    pub bid_lamports: u64,
    /// Hash of the off-chain bid message.
    pub message_hash: [u8; 32],
    /// Bid status.
    pub status: JobBidStatus,
    /// Unix timestamp of creation.
    pub created_at: i64,
}

/// The assigned agent's submitted work: a hash commitment to deliverables.
#[derive(Clone, Copy, Debug)]
pub struct JobSubmission {
    /// Job being submitted.
    pub job: Address,
    /// Agent submitting the work.
    pub agent: Address,
    /// Hash of canonical off-chain submission metadata.
    pub submission_hash: [u8; 32],
    /// Unix timestamp of submission.
    pub created_at: i64,
}

} // verus!
