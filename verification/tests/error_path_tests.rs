//! Error-path tests: each remaining categorical condition produced by an
//! input that triggers it.

use wunderland_sol::agents::execute_recover_agent_signer;
use wunderland_sol::auth::{build_agent_message, ed25519_program_address, InstructionData};
use wunderland_sol::errors::WunderlandError;
use wunderland_sol::jobs::{accept_job_bid, approve_job_submission, place_job_bid, submit_job};
use wunderland_sol::merkle::{build_merkle_root, compute_leaf, generate_merkle_proof};
use wunderland_sol::posts::{anchor_post, cast_vote};
use wunderland_sol::rewards::{claim_rewards, RewardsClaimRegistry};
use wunderland_sol::state::{
    AgentIdentity, AgentVault, Enclave, EnclaveTreasury, GlobalTreasury, JobBid, JobBidStatus,
    JobEscrow, JobPosting, JobStatus, JobSubmission, ProgramConfig, RewardsEpoch, TipAnchor,
    TipEscrow, TipPriority, TipSourceType, TipStatus, Wallet,
};
use wunderland_sol::tips::{refund_tip, settle_tip_enclave, settle_tip_global};

fn addr(tag: u8) -> [u8; 32] {
    let mut a = [0u8; 32];
    a[0] = tag;
    a
}

fn agent_with(address: [u8; 32], owner: [u8; 32], signer: [u8; 32]) -> AgentIdentity {
    AgentIdentity {
        address,
        owner,
        agent_id: addr(99),
        agent_signer: signer,
        display_name: addr(77),
        hexaco_traits: [500u16; 6],
        citizen_level: 1,
        xp: 0,
        total_entries: 0,
        reputation_score: 0,
        metadata_hash: addr(88),
        created_at: 0,
        updated_at: 0,
        is_active: true,
    }
}

fn verification_instruction(pubkey: &[u8; 32], message: &[u8]) -> InstructionData {
    let mut data = vec![1u8, 0u8];
    for half in [
        16u16.to_le_bytes(),
        0xffffu16.to_le_bytes(),
        80u16.to_le_bytes(),
        0xffffu16.to_le_bytes(),
        112u16.to_le_bytes(),
        (message.len() as u16).to_le_bytes(),
        0xffffu16.to_le_bytes(),
    ] {
        data.extend_from_slice(&half);
    }
    data.extend_from_slice(&[0u8; 64]);
    data.extend_from_slice(pubkey);
    data.extend_from_slice(message);
    InstructionData { program_id: ed25519_program_address(), data }
}

const RESERVE: u64 = 1_000_000;

fn pending_tip(target_enclave: [u8; 32]) -> (TipAnchor, TipEscrow) {
    let tip = TipAnchor {
        address: addr(40),
        tipper: addr(1),
        content_hash: addr(7),
        amount: 20_000_000,
        priority: TipPriority::Low,
        source_type: TipSourceType::Text,
        target_enclave,
        tip_nonce: 1,
        created_at: 0,
        status: TipStatus::Pending,
    };
    let escrow = TipEscrow { tip: addr(40), amount: 20_000_000, lamports: 21_000_000 };
    (tip, escrow)
}

#[test]
fn enclave_targeted_tip_cannot_settle_on_the_global_path() {
    let config = ProgramConfig { authority: addr(9), agent_count: 0, enclave_count: 0 };
    let (mut tip, mut escrow) = pending_tip(addr(3));
    let mut treasury = GlobalTreasury { authority: addr(9), total_collected: 0, lamports: 0 };
    let r = settle_tip_global(&config, &addr(9), &mut tip, &mut escrow, &mut treasury, RESERVE);
    assert_eq!(r.unwrap_err(), WunderlandError::InvalidTargetEnclave);
}

#[test]
fn enclave_settlement_rejects_a_foreign_treasury() {
    let config = ProgramConfig { authority: addr(9), agent_count: 0, enclave_count: 0 };
    let (mut tip, mut escrow) = pending_tip(addr(3));
    let enclave = Enclave {
        address: addr(3),
        name_hash: addr(50),
        creator_agent: addr(2),
        creator_owner: addr(6),
        metadata_hash: addr(51),
        created_at: 0,
        is_active: true,
    };
    let mut treasury = GlobalTreasury { authority: addr(9), total_collected: 0, lamports: 0 };
    // A treasury that belongs to some other enclave.
    let mut enclave_treasury = EnclaveTreasury { enclave: addr(4), lamports: RESERVE };
    let r = settle_tip_enclave(
        &config,
        &addr(9),
        &mut tip,
        &mut escrow,
        &mut treasury,
        &enclave,
        &mut enclave_treasury,
        RESERVE,
    );
    assert_eq!(r.unwrap_err(), WunderlandError::InvalidEnclaveTreasury);
}

#[test]
fn refund_into_a_full_wallet_overflows() {
    let config = ProgramConfig { authority: addr(9), agent_count: 0, enclave_count: 0 };
    let (mut tip, mut escrow) = pending_tip([0u8; 32]);
    let mut tipper = Wallet { address: addr(1), lamports: u64::MAX };
    let r = refund_tip(&config, &addr(9), &mut tip, &mut escrow, &mut tipper, RESERVE);
    assert_eq!(r.unwrap_err(), WunderlandError::ArithmeticOverflow);
    assert_eq!(tipper.lamports, u64::MAX);
    assert_eq!(tip.status, TipStatus::Pending);
}

fn open_job(status: JobStatus) -> (JobPosting, JobEscrow) {
    let job = JobPosting {
        address: addr(60),
        creator: addr(1),
        job_nonce: 1,
        metadata_hash: addr(50),
        budget_lamports: 10_000_000,
        buy_it_now_lamports: None,
        status,
        assigned_agent: addr(2),
        accepted_bid: addr(61),
        created_at: 0,
        updated_at: 0,
    };
    let escrow = JobEscrow { job: addr(60), amount: 10_000_000, lamports: 10_000_000 + RESERVE };
    (job, escrow)
}

fn accepted_bid() -> JobBid {
    JobBid {
        address: addr(61),
        job: addr(60),
        bidder_agent: addr(2),
        bid_lamports: 8_000_000,
        message_hash: addr(70),
        status: JobBidStatus::Accepted,
        created_at: 0,
    }
}

#[test]
fn bid_on_a_closed_job_fails_job_not_open() {
    let (mut job, _escrow) = open_job(JobStatus::Assigned);
    let agent = agent_with(addr(2), addr(3), addr(4));
    let r = place_job_bid(&mut job, &agent, None, &addr(90), 1_000, addr(70), 100, addr(62));
    assert_eq!(r.unwrap_err(), WunderlandError::JobNotOpen);
}

#[test]
fn short_escrow_blocks_acceptance() {
    let (mut job, mut escrow) = open_job(JobStatus::Open);
    escrow.amount = 9_999_999;
    let mut bid = JobBid { status: JobBidStatus::Active, ..accepted_bid() };
    let mut creator = Wallet { address: addr(1), lamports: 0 };
    let r = accept_job_bid(&mut job, &mut bid, &mut escrow, &mut creator, 100, RESERVE);
    assert_eq!(r.unwrap_err(), WunderlandError::InsufficientJobEscrowBalance);
}

#[test]
fn only_the_assigned_agent_submits() {
    let (mut job, _escrow) = open_job(JobStatus::Assigned);
    let interloper = agent_with(addr(5), addr(3), addr(4));
    let r = submit_job(&mut job, &interloper, None, &addr(90), addr(71), 100);
    assert_eq!(r.unwrap_err(), WunderlandError::UnauthorizedJobAgent);
}

#[test]
fn approval_needs_a_submitted_job_and_the_accepted_bid() {
    let submission = JobSubmission {
        job: addr(60),
        agent: addr(2),
        submission_hash: addr(71),
        created_at: 0,
    };
    let bid = accepted_bid();
    let mut vault = AgentVault { address: addr(20), agent: addr(2), lamports: RESERVE };
    let mut creator = Wallet { address: addr(1), lamports: 0 };

    // Wrong status.
    let (mut job, mut escrow) = open_job(JobStatus::Assigned);
    let r = approve_job_submission(
        &mut job,
        &mut escrow,
        &submission,
        &bid,
        &mut vault,
        &mut creator,
        100,
        RESERVE,
    );
    assert_eq!(r.unwrap_err(), WunderlandError::JobNotSubmitted);

    // A bid account that is not the accepted one.
    let (mut job, mut escrow) = open_job(JobStatus::Submitted);
    let other_bid = JobBid { address: addr(63), ..bid };
    let r = approve_job_submission(
        &mut job,
        &mut escrow,
        &submission,
        &other_bid,
        &mut vault,
        &mut creator,
        100,
        RESERVE,
    );
    assert_eq!(r.unwrap_err(), WunderlandError::InvalidJobBid);

    // The accepted bid in the wrong state.
    let (mut job, mut escrow) = open_job(JobStatus::Submitted);
    let stale_bid = JobBid { status: JobBidStatus::Withdrawn, ..bid };
    let r = approve_job_submission(
        &mut job,
        &mut escrow,
        &submission,
        &stale_bid,
        &mut vault,
        &mut creator,
        100,
        RESERVE,
    );
    assert_eq!(r.unwrap_err(), WunderlandError::BidNotAccepted);

    // A vault that does not belong to the submitting agent.
    let (mut job, mut escrow) = open_job(JobStatus::Submitted);
    let mut foreign_vault = AgentVault { address: addr(21), agent: addr(5), lamports: RESERVE };
    let r = approve_job_submission(
        &mut job,
        &mut escrow,
        &submission,
        &bid,
        &mut foreign_vault,
        &mut creator,
        100,
        RESERVE,
    );
    assert_eq!(r.unwrap_err(), WunderlandError::InvalidAgentVault);
}

#[test]
fn executing_without_a_pending_recovery_fails() {
    let mut agent = agent_with(addr(2), addr(1), addr(3));
    let mut slot = None;
    let r = execute_recover_agent_signer(&mut agent, &addr(1), &mut slot, 100);
    assert_eq!(r.unwrap_err(), WunderlandError::NoPendingRecovery);
}

#[test]
fn claim_beyond_the_epoch_total_is_refused() {
    // A root committing to more value than the epoch actually escrows.
    let enclave_addr = addr(5);
    let leaves = vec![compute_leaf(&enclave_addr, 1, 0, &addr(10), 5_000_000)];
    let root = build_merkle_root(&leaves);
    let mut epoch = RewardsEpoch {
        address: addr(61),
        enclave: enclave_addr,
        epoch: 1,
        merkle_root: root,
        total_amount: 4_000_000,
        claimed_amount: 0,
        published_at: 0,
        claim_deadline: 0,
        swept_at: 0,
        lamports: RESERVE + 10_000_000,
    };
    let agent = agent_with(addr(10), addr(1), addr(3));
    let mut vault = AgentVault { address: addr(20), agent: addr(10), lamports: RESERVE };
    let mut registry = RewardsClaimRegistry::new();
    let proof = generate_merkle_proof(&leaves, 0);
    let r = claim_rewards(
        &mut epoch,
        &agent,
        &mut vault,
        &mut registry,
        0,
        5_000_000,
        &proof,
        100,
        RESERVE,
    );
    assert_eq!(r.unwrap_err(), WunderlandError::InsufficientRewardsBalance);
    assert_eq!(epoch.claimed_amount, 0);
    assert_eq!(vault.lamports, RESERVE);
}

#[test]
fn entry_and_vote_counters_refuse_to_wrap() {
    let program_id = addr(90);
    let enclave = Enclave {
        address: addr(60),
        name_hash: addr(50),
        creator_agent: addr(2),
        creator_owner: addr(1),
        metadata_hash: addr(51),
        created_at: 0,
        is_active: true,
    };

    // An agent whose entry counter is saturated.
    let mut agent = agent_with(addr(2), addr(1), addr(3));
    agent.total_entries = u32::MAX;
    let mut payload = Vec::new();
    payload.extend_from_slice(&enclave.address);
    payload.push(0);
    payload.extend_from_slice(&[0u8; 32]);
    payload.extend_from_slice(&agent.total_entries.to_le_bytes());
    payload.extend_from_slice(&addr(70));
    payload.extend_from_slice(&addr(71));
    let message = build_agent_message(2, &program_id, &agent.address, &payload);
    let auth = verification_instruction(&agent.agent_signer, &message);
    let r = anchor_post(
        &mut agent,
        &enclave,
        Some(&auth),
        &program_id,
        addr(70),
        addr(71),
        100,
        1,
        addr(80),
    );
    assert_eq!(r.unwrap_err(), WunderlandError::PostCountOverflow);
    assert_eq!(agent.total_entries, u32::MAX);

    // An entry whose upvote counter is saturated.
    let mut author = agent_with(addr(2), addr(1), addr(3));
    let voter = agent_with(addr(4), addr(5), addr(6));
    let mut post = wunderland_sol::state::PostAnchor {
        address: addr(80),
        agent: addr(2),
        enclave: addr(60),
        kind: wunderland_sol::state::EntryKind::Post,
        reply_to: [0u8; 32],
        post_index: 0,
        content_hash: addr(70),
        manifest_hash: addr(71),
        upvotes: u32::MAX,
        downvotes: 0,
        comment_count: 0,
        timestamp: 0,
        created_slot: 0,
    };
    let mut payload = Vec::new();
    payload.extend_from_slice(&post.address);
    payload.push(1);
    let message = build_agent_message(4, &program_id, &voter.address, &payload);
    let auth = verification_instruction(&voter.agent_signer, &message);
    let r = cast_vote(&mut post, &mut author, &voter, Some(&auth), &program_id, 1, 100);
    assert_eq!(r.unwrap_err(), WunderlandError::VoteCountOverflow);
    assert_eq!(post.upvotes, u32::MAX);

    // An author whose reputation is saturated.
    post.upvotes = 0;
    author.reputation_score = i64::MAX;
    let r = cast_vote(&mut post, &mut author, &voter, Some(&auth), &program_id, 1, 100);
    assert_eq!(r.unwrap_err(), WunderlandError::ReputationOverflow);
    assert_eq!(author.reputation_score, i64::MAX);
    assert_eq!(post.upvotes, 0);
}
