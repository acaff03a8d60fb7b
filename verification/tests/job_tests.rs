//! Job marketplace lifecycle tests, including the buy-it-now fast path
//! and the escrow reconciliation on acceptance and approval.

use wunderland_sol::auth::{build_agent_message, ed25519_program_address, InstructionData};
use wunderland_sol::errors::WunderlandError;
use wunderland_sol::jobs::{
    accept_job_bid, approve_job_submission, cancel_job, create_job, place_job_bid, submit_job,
    withdraw_job_bid,
};
use wunderland_sol::state::{
    AgentIdentity, AgentVault, JobBidStatus, JobStatus, Wallet,
};

fn addr(tag: u8) -> [u8; 32] {
    let mut a = [0u8; 32];
    a[0] = tag;
    a
}

fn agent_with(address: [u8; 32], owner: [u8; 32], signer: [u8; 32]) -> AgentIdentity {
    AgentIdentity {
        address,
        owner,
        agent_id: addr(99),
        agent_signer: signer,
        display_name: addr(77),
        hexaco_traits: [500u16; 6],
        citizen_level: 1,
        xp: 0,
        total_entries: 0,
        reputation_score: 0,
        metadata_hash: addr(88),
        created_at: 0,
        updated_at: 0,
        is_active: true,
    }
}

/// Builds the verification instruction the host would have executed for
/// `pubkey` over `message`: one signature, all regions embedded.
fn verification_instruction(pubkey: &[u8; 32], message: &[u8]) -> InstructionData {
    let mut data = vec![1u8, 0u8];
    let sig_offset = 16u16;
    let pk_offset = 80u16;
    let msg_offset = 112u16;
    for half in [
        sig_offset.to_le_bytes(),
        0xffffu16.to_le_bytes(),
        pk_offset.to_le_bytes(),
        0xffffu16.to_le_bytes(),
        msg_offset.to_le_bytes(),
        (message.len() as u16).to_le_bytes(),
        0xffffu16.to_le_bytes(),
    ] {
        data.extend_from_slice(&half);
    }
    data.extend_from_slice(&[0u8; 64]);
    data.extend_from_slice(pubkey);
    data.extend_from_slice(message);
    InstructionData { program_id: ed25519_program_address(), data }
}

fn bid_authorization(
    agent: &AgentIdentity,
    program_id: &[u8; 32],
    job_address: &[u8; 32],
    bid_lamports: u64,
    message_hash: &[u8; 32],
) -> InstructionData {
    let mut payload = Vec::new();
    payload.extend_from_slice(job_address);
    payload.extend_from_slice(&bid_lamports.to_le_bytes());
    payload.extend_from_slice(message_hash);
    let message = build_agent_message(6, program_id, &agent.address, &payload);
    verification_instruction(&agent.agent_signer, &message)
}

fn submit_authorization(
    agent: &AgentIdentity,
    program_id: &[u8; 32],
    job_address: &[u8; 32],
    submission_hash: &[u8; 32],
) -> InstructionData {
    let mut payload = Vec::new();
    payload.extend_from_slice(job_address);
    payload.extend_from_slice(submission_hash);
    let message = build_agent_message(8, program_id, &agent.address, &payload);
    verification_instruction(&agent.agent_signer, &message)
}

const RESERVE: u64 = 1_000_000;

#[test]
fn create_job_escrows_the_maximum_payout() {
    let mut creator = Wallet { address: addr(1), lamports: 100_000_000 };
    let (job, escrow) =
        create_job(&mut creator, 1, addr(50), 10_000_000, Some(15_000_000), 100, addr(60), RESERVE)
            .unwrap();
    assert_eq!(job.status, JobStatus::Open);
    assert_eq!(job.budget_lamports, 10_000_000);
    assert_eq!(escrow.amount, 15_000_000);
    assert_eq!(escrow.lamports, 15_000_000 + RESERVE);
    assert_eq!(creator.lamports, 100_000_000 - 15_000_000 - RESERVE);
}

#[test]
fn buy_it_now_price_must_exceed_budget() {
    let mut creator = Wallet { address: addr(1), lamports: 100_000_000 };
    let r = create_job(&mut creator, 1, addr(50), 10_000_000, Some(10_000_000), 100, addr(60), RESERVE);
    assert_eq!(r.unwrap_err(), WunderlandError::InvalidAmount);
    assert_eq!(creator.lamports, 100_000_000);
}

#[test]
fn buy_it_now_bid_assigns_immediately() {
    let program_id = addr(90);
    let mut creator = Wallet { address: addr(1), lamports: 100_000_000 };
    let (mut job, escrow) =
        create_job(&mut creator, 1, addr(50), 10_000_000, Some(15_000_000), 100, addr(60), RESERVE)
            .unwrap();
    let agent = agent_with(addr(2), addr(3), addr(4));
    let auth = bid_authorization(&agent, &program_id, &job.address, 15_000_000, &addr(70));
    let bid = place_job_bid(
        &mut job,
        &agent,
        Some(&auth),
        &program_id,
        15_000_000,
        addr(70),
        200,
        addr(61),
    )
    .unwrap();
    assert_eq!(job.status, JobStatus::Assigned);
    assert_eq!(job.assigned_agent, agent.address);
    assert_eq!(job.accepted_bid, addr(61));
    assert_eq!(bid.status, JobBidStatus::Accepted);
    // The escrow still holds the premium; approval will pay it out in full.
    assert_eq!(escrow.amount, 15_000_000);
}

#[test]
fn normal_bid_leaves_job_open_and_accept_refunds_premium() {
    let program_id = addr(90);
    let mut creator = Wallet { address: addr(1), lamports: 100_000_000 };
    let (mut job, mut escrow) =
        create_job(&mut creator, 1, addr(50), 10_000_000, Some(15_000_000), 100, addr(60), RESERVE)
            .unwrap();
    let agent = agent_with(addr(2), addr(3), addr(4));
    let auth = bid_authorization(&agent, &program_id, &job.address, 8_000_000, &addr(70));
    let mut bid = place_job_bid(
        &mut job,
        &agent,
        Some(&auth),
        &program_id,
        8_000_000,
        addr(70),
        200,
        addr(61),
    )
    .unwrap();
    assert_eq!(job.status, JobStatus::Open);
    assert_eq!(bid.status, JobBidStatus::Active);

    let creator_before = creator.lamports;
    accept_job_bid(&mut job, &mut bid, &mut escrow, &mut creator, 300, RESERVE).unwrap();
    assert_eq!(job.status, JobStatus::Assigned);
    assert_eq!(bid.status, JobBidStatus::Accepted);
    // Escrow downgraded to the budget; the premium delta came back.
    assert_eq!(escrow.amount, 10_000_000);
    assert_eq!(creator.lamports, creator_before + 5_000_000);
}

#[test]
fn bid_above_budget_without_buy_it_now_is_rejected() {
    let program_id = addr(90);
    let mut creator = Wallet { address: addr(1), lamports: 100_000_000 };
    let (mut job, _escrow) =
        create_job(&mut creator, 1, addr(50), 10_000_000, None, 100, addr(60), RESERVE).unwrap();
    let agent = agent_with(addr(2), addr(3), addr(4));
    let auth = bid_authorization(&agent, &program_id, &job.address, 12_000_000, &addr(70));
    let r = place_job_bid(
        &mut job,
        &agent,
        Some(&auth),
        &program_id,
        12_000_000,
        addr(70),
        200,
        addr(61),
    );
    assert_eq!(r.unwrap_err(), WunderlandError::InvalidAmount);
    assert_eq!(job.status, JobStatus::Open);
}

#[test]
fn submit_before_assignment_fails_job_not_assigned() {
    let program_id = addr(90);
    let mut creator = Wallet { address: addr(1), lamports: 100_000_000 };
    let (mut job, _escrow) =
        create_job(&mut creator, 1, addr(50), 10_000_000, None, 100, addr(60), RESERVE).unwrap();
    let agent = agent_with(addr(2), addr(3), addr(4));
    let auth = submit_authorization(&agent, &program_id, &job.address, &addr(71));
    let r = submit_job(&mut job, &agent, Some(&auth), &program_id, addr(71), 400);
    assert_eq!(r.unwrap_err(), WunderlandError::JobNotAssigned);
    assert_eq!(job.status, JobStatus::Open);
}

#[test]
fn approve_pays_the_bid_amount_never_the_budget() {
    let program_id = addr(90);
    let mut creator = Wallet { address: addr(1), lamports: 100_000_000 };
    let (mut job, mut escrow) =
        create_job(&mut creator, 1, addr(50), 10_000_000, None, 100, addr(60), RESERVE).unwrap();
    let agent = agent_with(addr(2), addr(3), addr(4));
    let auth = bid_authorization(&agent, &program_id, &job.address, 8_000_000, &addr(70));
    let mut bid = place_job_bid(
        &mut job,
        &agent,
        Some(&auth),
        &program_id,
        8_000_000,
        addr(70),
        200,
        addr(61),
    )
    .unwrap();
    accept_job_bid(&mut job, &mut bid, &mut escrow, &mut creator, 300, RESERVE).unwrap();
    let auth = submit_authorization(&agent, &program_id, &job.address, &addr(71));
    let submission =
        submit_job(&mut job, &agent, Some(&auth), &program_id, addr(71), 400).unwrap();
    assert_eq!(job.status, JobStatus::Submitted);

    let mut vault = AgentVault { address: addr(5), agent: agent.address, lamports: RESERVE };
    let creator_before = creator.lamports;
    approve_job_submission(
        &mut job,
        &mut escrow,
        &submission,
        &bid,
        &mut vault,
        &mut creator,
        500,
        RESERVE,
    )
    .unwrap();
    assert_eq!(job.status, JobStatus::Completed);
    // The agent received exactly the bid, the creator the remainder.
    assert_eq!(vault.lamports, RESERVE + 8_000_000);
    assert_eq!(creator.lamports, creator_before + 2_000_000);
    assert_eq!(escrow.amount, 0);
    assert_eq!(escrow.lamports, RESERVE);
}

#[test]
fn cancel_open_job_refunds_everything() {
    let mut creator = Wallet { address: addr(1), lamports: 100_000_000 };
    let (mut job, mut escrow) =
        create_job(&mut creator, 1, addr(50), 10_000_000, None, 100, addr(60), RESERVE).unwrap();
    let before = creator.lamports;
    cancel_job(&mut job, &mut escrow, &mut creator, 200, RESERVE).unwrap();
    assert_eq!(job.status, JobStatus::Cancelled);
    assert_eq!(escrow.amount, 0);
    assert_eq!(creator.lamports, before + 10_000_000);
}

#[test]
fn only_the_creator_cancels() {
    let mut creator = Wallet { address: addr(1), lamports: 100_000_000 };
    let (mut job, mut escrow) =
        create_job(&mut creator, 1, addr(50), 10_000_000, None, 100, addr(60), RESERVE).unwrap();
    let mut stranger = Wallet { address: addr(2), lamports: 0 };
    let r = cancel_job(&mut job, &mut escrow, &mut stranger, 200, RESERVE);
    assert_eq!(r.unwrap_err(), WunderlandError::UnauthorizedJobCreator);
    assert_eq!(job.status, JobStatus::Open);
}

#[test]
fn withdrawn_bid_cannot_be_accepted() {
    let program_id = addr(90);
    let mut creator = Wallet { address: addr(1), lamports: 100_000_000 };
    let (mut job, mut escrow) =
        create_job(&mut creator, 1, addr(50), 10_000_000, None, 100, addr(60), RESERVE).unwrap();
    let agent = agent_with(addr(2), addr(3), addr(4));
    let auth = bid_authorization(&agent, &program_id, &job.address, 8_000_000, &addr(70));
    let mut bid = place_job_bid(
        &mut job,
        &agent,
        Some(&auth),
        &program_id,
        8_000_000,
        addr(70),
        200,
        addr(61),
    )
    .unwrap();

    let mut payload = Vec::new();
    payload.extend_from_slice(&bid.address);
    let message = build_agent_message(7, &program_id, &agent.address, &payload);
    let auth = verification_instruction(&agent.agent_signer, &message);
    withdraw_job_bid(&job, &mut bid, &agent, Some(&auth), &program_id).unwrap();
    assert_eq!(bid.status, JobBidStatus::Withdrawn);

    let r = accept_job_bid(&mut job, &mut bid, &mut escrow, &mut creator, 300, RESERVE);
    assert_eq!(r.unwrap_err(), WunderlandError::BidNotActive);
}

#[test]
fn bid_needs_the_agents_own_signature() {
    let program_id = addr(90);
    let mut creator = Wallet { address: addr(1), lamports: 100_000_000 };
    let (mut job, _escrow) =
        create_job(&mut creator, 1, addr(50), 10_000_000, None, 100, addr(60), RESERVE).unwrap();
    let agent = agent_with(addr(2), addr(3), addr(4));
    // Signed by some other key.
    let mut payload = Vec::new();
    payload.extend_from_slice(&job.address);
    payload.extend_from_slice(&8_000_000u64.to_le_bytes());
    payload.extend_from_slice(&addr(70));
    let message = build_agent_message(6, &program_id, &agent.address, &payload);
    let auth = verification_instruction(&addr(42), &message);
    let r = place_job_bid(
        &mut job,
        &agent,
        Some(&auth),
        &program_id,
        8_000_000,
        addr(70),
        200,
        addr(61),
    );
    assert_eq!(r.unwrap_err(), WunderlandError::SignaturePublicKeyMismatch);

    // No preceding instruction at all.
    let r = place_job_bid(&mut job, &agent, None, &program_id, 8_000_000, addr(70), 200, addr(61));
    assert_eq!(r.unwrap_err(), WunderlandError::MissingEd25519Instruction);
    assert_eq!(job.status, JobStatus::Open);
}
