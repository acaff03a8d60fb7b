//! The job marketplace state machine.
//!
//! Jobs move strictly forward — `Open -> Assigned -> Submitted ->
//! Completed`, with `Open -> Cancelled` the only other exit — and the job
//! escrow always equals the currently committed payout obligation: the
//! budget (or the buy-it-now premium before a bid is accepted) while open,
//! the accepted bid's exact amount afterwards, zero once settled.

use vstd::prelude::*;

use crate::addr::{addr_eq, is_zero_addr, push_bytes, zero_addr, zero_address, Address};
use crate::auth::{
    agent_message, build_agent_message, require_ed25519_signature_preceding_instruction,
    sig_check_outcome, InstructionData, ACTION_PLACE_JOB_BID, ACTION_SUBMIT_JOB,
    ACTION_WITHDRAW_JOB_BID,
};
use crate::errors::WunderlandError;
use crate::state::{
    AgentIdentity, AgentVault, JobBid, JobBidStatus, JobEscrow, JobPosting, JobStatus,
    JobSubmission, Wallet,
};
use vstd::bytes::{spec_u64_to_le_bytes, u64_to_le_bytes};

verus! {

/// The escrow a new job locks up front: the buy-it-now price when one is
/// set (so instant assignment needs no second deposit), else the budget.
pub open spec fn initial_job_escrow(budget: u64, buy_it_now: Option<u64>) -> u64 {
    match buy_it_now {
        Option::Some(v) => v,
        Option::None => budget,
    }
}

/// The exact outcome of a job creation's checks: a positive budget, a
/// non-zero metadata commitment, and a buy-it-now price strictly above
/// the budget when one is given.
pub open spec fn create_job_error(
    metadata_hash: [u8; 32],
    budget_lamports: u64,
    buy_it_now_lamports: Option<u64>,
) -> Option<WunderlandError> {
    if budget_lamports == 0 {
        Some(WunderlandError::InvalidAmount)
    } else if metadata_hash@ == zero_addr() {
        Some(WunderlandError::InvalidAmount)
    } else if (match buy_it_now_lamports {
        Option::Some(v) => v <= budget_lamports,
        Option::None => false,
    }) {
        Some(WunderlandError::InvalidAmount)
    } else {
        None
    }
}

/// Creates a job posting, escrowing the maximum possible payout up front.
/// The creator pays the escrow amount plus the new escrow account's
/// minimum reserve.  On failure nothing is mutated.
pub fn create_job(
    creator: &mut Wallet,
    job_nonce: u64,
    metadata_hash: [u8; 32],
    budget_lamports: u64,
    buy_it_now_lamports: Option<u64>,
    now: i64,
    job_address: Address,
    escrow_min_reserve: u64,
) -> (r: Result<(JobPosting, JobEscrow), WunderlandError>)
    requires
        old(creator).lamports >= escrow_min_reserve + initial_job_escrow(
            budget_lamports,
            buy_it_now_lamports,
        ),
    ensures
        match r {
            Ok((job, escrow)) => {
                let escrow_amount = initial_job_escrow(budget_lamports, buy_it_now_lamports);
                &&& create_job_error(metadata_hash, budget_lamports, buy_it_now_lamports) is None
                &&& job.address == job_address
                &&& job.creator == old(creator).address
                &&& job.job_nonce == job_nonce
                &&& job.metadata_hash == metadata_hash
                &&& job.budget_lamports == budget_lamports
                &&& job.buy_it_now_lamports == buy_it_now_lamports
                &&& job.status == JobStatus::Open
                &&& job.assigned_agent@ == zero_addr()
                &&& job.accepted_bid@ == zero_addr()
                &&& job.created_at == now
                &&& job.updated_at == now
                &&& escrow.job == job_address
                &&& escrow.amount == escrow_amount
                &&& escrow.lamports == escrow_min_reserve + escrow_amount
                &&& escrow.covered(escrow_min_reserve)
                &&& final(creator).address == old(creator).address
                &&& final(creator).lamports == old(creator).lamports - escrow_min_reserve
                    - escrow_amount
            },
            Err(e) => {
                &&& Some(e) == create_job_error(metadata_hash, budget_lamports, buy_it_now_lamports)
                &&& *final(creator) == *old(creator)
            },
        },
{
    if budget_lamports == 0 {
        return Err(WunderlandError::InvalidAmount);
    }
    if is_zero_addr(&metadata_hash) {
        return Err(WunderlandError::InvalidAmount);
    }
    let escrow_amount: u64 = match buy_it_now_lamports {
        Option::Some(bin_price) => {
            if bin_price <= budget_lamports {
                return Err(WunderlandError::InvalidAmount);
            }
            bin_price
        },
        Option::None => budget_lamports,
    };
    let job = JobPosting {
        address: job_address,
        creator: creator.address,
        job_nonce,
        metadata_hash,
        budget_lamports,
        buy_it_now_lamports,
        status: JobStatus::Open,
        assigned_agent: zero_address(),
        accepted_bid: zero_address(),
        created_at: now,
        updated_at: now,
    };
    let escrow = JobEscrow {
        job: job_address,
        amount: escrow_amount,
        lamports: escrow_min_reserve + escrow_amount,
    };
    creator.lamports = creator.lamports - escrow_min_reserve - escrow_amount;
    Ok((job, escrow))
}

/// The exact outcome of a job cancellation's checks.
pub open spec fn cancel_job_error(
    job: JobPosting,
    escrow: JobEscrow,
    creator: Wallet,
    min_reserve: u64,
) -> Option<WunderlandError> {
    if job.creator@ != creator.address@ {
        Some(WunderlandError::UnauthorizedJobCreator)
    } else if job.status != JobStatus::Open {
        Some(WunderlandError::JobNotOpen)
    } else if escrow.amount == 0 {
        Some(WunderlandError::InvalidAmount)
    } else if escrow.lamports < min_reserve + escrow.amount {
        Some(WunderlandError::InsufficientJobEscrowBalance)
    } else if creator.lamports + escrow.amount > u64::MAX {
        Some(WunderlandError::ArithmeticOverflow)
    } else {
        None
    }
}

/// Cancels an open job: refunds the full escrow to the creator and marks
/// the job `Cancelled`.  Creator-only.  On failure nothing is mutated.
pub fn cancel_job(
    job: &mut JobPosting,
    escrow: &mut JobEscrow,
    creator: &mut Wallet,
    now: i64,
    min_reserve: u64,
) -> (r: Result<(), WunderlandError>)
    requires
        old(escrow).job@ == old(job).address@,
    ensures
        match r {
            Ok(()) => {
                &&& cancel_job_error(*old(job), *old(escrow), *old(creator), min_reserve) is None
                &&& *final(job) == (JobPosting {
                    status: JobStatus::Cancelled,
                    updated_at: now,
                    ..*old(job)
                })
                &&& *final(escrow) == (JobEscrow {
                    amount: 0,
                    lamports: (old(escrow).lamports - old(escrow).amount) as u64,
                    ..*old(escrow)
                })
                &&& final(escrow).lamports >= min_reserve
                &&& *final(creator) == (Wallet {
                    lamports: (old(creator).lamports + old(escrow).amount) as u64,
                    ..*old(creator)
                })
            },
            Err(e) => {
                &&& Some(e) == cancel_job_error(*old(job), *old(escrow), *old(creator), min_reserve)
                &&& *final(job) == *old(job)
                &&& *final(escrow) == *old(escrow)
                &&& *final(creator) == *old(creator)
            },
        },
{
    if !addr_eq(&job.creator, &creator.address) {
        return Err(WunderlandError::UnauthorizedJobCreator);
    }
    if !(job.status == JobStatus::Open) {
        return Err(WunderlandError::JobNotOpen);
    }
    let amount = escrow.amount;
    if amount == 0 {
        return Err(WunderlandError::InvalidAmount);
    }
    if escrow.lamports < min_reserve || escrow.lamports - min_reserve < amount {
        return Err(WunderlandError::InsufficientJobEscrowBalance);
    }
    let new_creator_lamports = match creator.lamports.checked_add(amount) {
        Some(v) => v,
        None => {
            return Err(WunderlandError::ArithmeticOverflow);
        },
    };
    escrow.lamports = escrow.lamports - amount;
    creator.lamports = new_creator_lamports;
    escrow.amount = 0;
    job.status = JobStatus::Cancelled;
    job.updated_at = now;
    Ok(())
}

/// Whether a bid amount is the job's buy-it-now price.
pub open spec fn is_buy_it_now_bid(job: JobPosting, bid_lamports: u64) -> bool {
    match job.buy_it_now_lamports {
        Option::Some(v) => v == bid_lamports,
        Option::None => false,
    }
}

/// The payload an agent signs when placing a bid:
/// `job address || bid amount (LE) || bid message hash`.
pub open spec fn place_job_bid_payload(
    job_address: Seq<u8>,
    bid_lamports: u64,
    message_hash: Seq<u8>,
) -> Seq<u8> {
    job_address + spec_u64_to_le_bytes(bid_lamports) + message_hash
}

/// The exact outcome of a bid placement's checks, given the outcome `sig`
/// of the delegated-signature check.
pub open spec fn place_job_bid_error(
    job: JobPosting,
    agent: AgentIdentity,
    bid_lamports: u64,
    sig: Option<WunderlandError>,
) -> Option<WunderlandError> {
    if job.status != JobStatus::Open {
        Some(WunderlandError::JobNotOpen)
    } else if !agent.is_active {
        Some(WunderlandError::AgentInactive)
    } else if bid_lamports == 0 {
        Some(WunderlandError::InvalidAmount)
    } else if !is_buy_it_now_bid(job, bid_lamports) && bid_lamports > job.budget_lamports {
        Some(WunderlandError::InvalidAmount)
    } else {
        sig
    }
}

/// Places a bid on an open job, authorized by the bidding agent's signer.
/// A normal bid must not exceed the budget and leaves the job open; a bid
/// of exactly the buy-it-now price is accepted immediately and atomically
/// assigns the job, bypassing creator approval.  On failure nothing is
/// mutated.
pub fn place_job_bid(
    job: &mut JobPosting,
    agent: &AgentIdentity,
    preceding: Option<&InstructionData>,
    program_id: &Address,
    bid_lamports: u64,
    message_hash: [u8; 32],
    now: i64,
    bid_address: Address,
) -> (r: Result<JobBid, WunderlandError>)
    ensures
        match r {
            Ok(bid) => {
                let bin = is_buy_it_now_bid(*old(job), bid_lamports);
                let sig = sig_check_outcome(
                    preceding,
                    agent.agent_signer@,
                    agent_message(
                        ACTION_PLACE_JOB_BID,
                        program_id@,
                        agent.address@,
                        place_job_bid_payload(old(job).address@, bid_lamports, message_hash@),
                    ),
                );
                &&& place_job_bid_error(*old(job), *agent, bid_lamports, sig) is None
                &&& bid.address == bid_address
                &&& bid.job == old(job).address
                &&& bid.bidder_agent == agent.address
                &&& bid.bid_lamports == bid_lamports
                &&& bid.message_hash == message_hash
                &&& bid.status == (if bin {
                    JobBidStatus::Accepted
                } else {
                    JobBidStatus::Active
                })
                &&& bid.created_at == now
                &&& (if bin {
                    *final(job) == (JobPosting {
                        status: JobStatus::Assigned,
                        assigned_agent: agent.address,
                        accepted_bid: bid_address,
                        updated_at: now,
                        ..*old(job)
                    })
                } else {
                    *final(job) == *old(job)
                })
            },
            Err(e) => {
                let sig = sig_check_outcome(
                    preceding,
                    agent.agent_signer@,
                    agent_message(
                        ACTION_PLACE_JOB_BID,
                        program_id@,
                        agent.address@,
                        place_job_bid_payload(old(job).address@, bid_lamports, message_hash@),
                    ),
                );
                &&& Some(e) == place_job_bid_error(*old(job), *agent, bid_lamports, sig)
                &&& *final(job) == *old(job)
            },
        },
{
    if !(job.status == JobStatus::Open) {
        return Err(WunderlandError::JobNotOpen);
    }
    if !agent.is_active {
        return Err(WunderlandError::AgentInactive);
    }
    if bid_lamports == 0 {
        return Err(WunderlandError::InvalidAmount);
    }
    let is_buy_it_now = match job.buy_it_now_lamports {
        Option::Some(v) => v == bid_lamports,
        Option::None => false,
    };
    if !is_buy_it_now && bid_lamports > job.budget_lamports {
        return Err(WunderlandError::InvalidAmount);
    }
    let mut payload: Vec<u8> = Vec::new();
    push_bytes(&mut payload, job.address.as_slice());
    let bid_le = u64_to_le_bytes(bid_lamports);
    push_bytes(&mut payload, bid_le.as_slice());
    push_bytes(&mut payload, message_hash.as_slice());
    proof {
        assert(payload@ =~= place_job_bid_payload(job.address@, bid_lamports, message_hash@));
    }
    let expected_message = build_agent_message(
        ACTION_PLACE_JOB_BID,
        program_id,
        &agent.address,
        &payload,
    );
    match require_ed25519_signature_preceding_instruction(
        preceding,
        &agent.agent_signer,
        &expected_message,
    ) {
        Ok(()) => (),
        Err(e) => {
            return Err(e);
        },
    }
    let bid = JobBid {
        address: bid_address,
        job: job.address,
        bidder_agent: agent.address,
        bid_lamports,
        message_hash,
        status: if is_buy_it_now {
            JobBidStatus::Accepted
        } else {
            JobBidStatus::Active
        },
        created_at: now,
    };
    if is_buy_it_now {
        job.status = JobStatus::Assigned;
        job.assigned_agent = agent.address;
        job.accepted_bid = bid_address;
        job.updated_at = now;
    }
    Ok(bid)
}

/// The payload an agent signs when withdrawing a bid: the bid's address.
pub open spec fn withdraw_job_bid_payload(bid_address: Seq<u8>) -> Seq<u8> {
    bid_address
}

/// The exact outcome of a bid withdrawal's checks, given the outcome
/// `sig` of the delegated-signature check.
pub open spec fn withdraw_job_bid_error(
    bid: JobBid,
    agent: AgentIdentity,
    sig: Option<WunderlandError>,
) -> Option<WunderlandError> {
    if bid.status != JobBidStatus::Active {
        Some(WunderlandError::BidNotActive)
    } else if !agent.is_active {
        Some(WunderlandError::AgentInactive)
    } else {
        sig
    }
}

/// Withdraws an active bid, authorized by its own bidder's signer.  Job
/// state is untouched.  On failure nothing is mutated.
pub fn withdraw_job_bid(
    job: &JobPosting,
    bid: &mut JobBid,
    agent: &AgentIdentity,
    preceding: Option<&InstructionData>,
    program_id: &Address,
) -> (r: Result<(), WunderlandError>)
    requires
        old(bid).job@ == job.address@,
        old(bid).bidder_agent@ == agent.address@,
    ensures
        match r {
            Ok(()) => {
                let sig = sig_check_outcome(
                    preceding,
                    agent.agent_signer@,
                    agent_message(
                        ACTION_WITHDRAW_JOB_BID,
                        program_id@,
                        agent.address@,
                        withdraw_job_bid_payload(old(bid).address@),
                    ),
                );
                &&& withdraw_job_bid_error(*old(bid), *agent, sig) is None
                &&& *final(bid) == (JobBid { status: JobBidStatus::Withdrawn, ..*old(bid) })
            },
            Err(e) => {
                let sig = sig_check_outcome(
                    preceding,
                    agent.agent_signer@,
                    agent_message(
                        ACTION_WITHDRAW_JOB_BID,
                        program_id@,
                        agent.address@,
                        withdraw_job_bid_payload(old(bid).address@),
                    ),
                );
                &&& Some(e) == withdraw_job_bid_error(*old(bid), *agent, sig)
                &&& *final(bid) == *old(bid)
            },
        },
{
    if !(bid.status == JobBidStatus::Active) {
        return Err(WunderlandError::BidNotActive);
    }
    if !agent.is_active {
        return Err(WunderlandError::AgentInactive);
    }
    let mut payload: Vec<u8> = Vec::new();
    push_bytes(&mut payload, bid.address.as_slice());
    proof {
        assert(payload@ =~= withdraw_job_bid_payload(bid.address@));
    }
    let expected_message = build_agent_message(
        ACTION_WITHDRAW_JOB_BID,
        program_id,
        &agent.address,
        &payload,
    );
    match require_ed25519_signature_preceding_instruction(
        preceding,
        &agent.agent_signer,
        &expected_message,
    ) {
        Ok(()) => (),
        Err(e) => {
            return Err(e);
        },
    }
    bid.status = JobBidStatus::Withdrawn;
    Ok(())
}

/// The exact outcome of a bid acceptance's checks.
pub open spec fn accept_job_bid_error(
    job: JobPosting,
    bid: JobBid,
    escrow: JobEscrow,
    creator: Wallet,
    min_reserve: u64,
) -> Option<WunderlandError> {
    let refund = escrow.amount - job.budget_lamports;
    if job.creator@ != creator.address@ {
        Some(WunderlandError::UnauthorizedJobCreator)
    } else if job.status != JobStatus::Open {
        Some(WunderlandError::JobNotOpen)
    } else if bid.status != JobBidStatus::Active {
        Some(WunderlandError::BidNotActive)
    } else if escrow.amount < job.budget_lamports {
        Some(WunderlandError::InsufficientJobEscrowBalance)
    } else if escrow.amount > job.budget_lamports && escrow.lamports < min_reserve
        + escrow.amount {
        Some(WunderlandError::InsufficientJobEscrowBalance)
    } else if escrow.amount > job.budget_lamports && creator.lamports + refund > u64::MAX {
        Some(WunderlandError::ArithmeticOverflow)
    } else {
        None
    }
}

/// Accepts an active bid on an open job.  If the escrow still holds a
/// buy-it-now premium above the budget, the surplus is refunded to the
/// creator at once and the escrow is resized down to the budget — the
/// up-front conservative escrow reconciled with the now-known payout.
/// Creator-only.  On failure nothing is mutated.
pub fn accept_job_bid(
    job: &mut JobPosting,
    bid: &mut JobBid,
    escrow: &mut JobEscrow,
    creator: &mut Wallet,
    now: i64,
    min_reserve: u64,
) -> (r: Result<(), WunderlandError>)
    requires
        old(escrow).job@ == old(job).address@,
        old(bid).job@ == old(job).address@,
    ensures
        match r {
            Ok(()) => {
                let refund = old(escrow).amount - old(job).budget_lamports;
                &&& accept_job_bid_error(
                    *old(job),
                    *old(bid),
                    *old(escrow),
                    *old(creator),
                    min_reserve,
                ) is None
                &&& *final(job) == (JobPosting {
                    status: JobStatus::Assigned,
                    assigned_agent: old(bid).bidder_agent,
                    accepted_bid: old(bid).address,
                    updated_at: now,
                    ..*old(job)
                })
                &&& *final(bid) == (JobBid { status: JobBidStatus::Accepted, ..*old(bid) })
                &&& *final(escrow) == (JobEscrow {
                    amount: old(job).budget_lamports,
                    lamports: (old(escrow).lamports - refund) as u64,
                    ..*old(escrow)
                })
                &&& *final(creator) == (Wallet {
                    lamports: (old(creator).lamports + refund) as u64,
                    ..*old(creator)
                })
            },
            Err(e) => {
                &&& Some(e) == accept_job_bid_error(
                    *old(job),
                    *old(bid),
                    *old(escrow),
                    *old(creator),
                    min_reserve,
                )
                &&& *final(job) == *old(job)
                &&& *final(bid) == *old(bid)
                &&& *final(escrow) == *old(escrow)
                &&& *final(creator) == *old(creator)
            },
        },
{
    if !addr_eq(&job.creator, &creator.address) {
        return Err(WunderlandError::UnauthorizedJobCreator);
    }
    if !(job.status == JobStatus::Open) {
        return Err(WunderlandError::JobNotOpen);
    }
    if !(bid.status == JobBidStatus::Active) {
        return Err(WunderlandError::BidNotActive);
    }
    let target_amount = job.budget_lamports;
    if escrow.amount < target_amount {
        return Err(WunderlandError::InsufficientJobEscrowBalance);
    }
    if escrow.amount > target_amount {
        let refund_amount = escrow.amount - target_amount;
        if escrow.lamports < min_reserve || escrow.lamports - min_reserve < escrow.amount {
            return Err(WunderlandError::InsufficientJobEscrowBalance);
        }
        let new_creator_lamports = match creator.lamports.checked_add(refund_amount) {
            Some(v) => v,
            None => {
                return Err(WunderlandError::ArithmeticOverflow);
            },
        };
        escrow.lamports = escrow.lamports - refund_amount;
        creator.lamports = new_creator_lamports;
    }
    escrow.amount = target_amount;
    job.status = JobStatus::Assigned;
    job.assigned_agent = bid.bidder_agent;
    job.accepted_bid = bid.address;
    job.updated_at = now;
    bid.status = JobBidStatus::Accepted;
    Ok(())
}

/// The payload an agent signs when submitting work:
/// `job address || submission hash`.
pub open spec fn submit_job_payload(job_address: Seq<u8>, submission_hash: Seq<u8>) -> Seq<u8> {
    job_address + submission_hash
}

/// The exact outcome of a work submission's checks, given the outcome
/// `sig` of the delegated-signature check.
pub open spec fn submit_job_error(
    job: JobPosting,
    agent: AgentIdentity,
    submission_hash: [u8; 32],
    sig: Option<WunderlandError>,
) -> Option<WunderlandError> {
    if job.status != JobStatus::Assigned {
        Some(WunderlandError::JobNotAssigned)
    } else if job.assigned_agent@ != agent.address@ {
        Some(WunderlandError::UnauthorizedJobAgent)
    } else if !agent.is_active {
        Some(WunderlandError::AgentInactive)
    } else if submission_hash@ == zero_addr() {
        Some(WunderlandError::InvalidAmount)
    } else {
        sig
    }
}

/// Submits work for an assigned job: only the assigned agent, only while
/// `Assigned`, authorized by the agent's signer.  Creates the submission
/// record and moves the job to `Submitted`.  On failure nothing is
/// mutated.
pub fn submit_job(
    job: &mut JobPosting,
    agent: &AgentIdentity,
    preceding: Option<&InstructionData>,
    program_id: &Address,
    submission_hash: [u8; 32],
    now: i64,
) -> (r: Result<JobSubmission, WunderlandError>)
    ensures
        match r {
            Ok(submission) => {
                let sig = sig_check_outcome(
                    preceding,
                    agent.agent_signer@,
                    agent_message(
                        ACTION_SUBMIT_JOB,
                        program_id@,
                        agent.address@,
                        submit_job_payload(old(job).address@, submission_hash@),
                    ),
                );
                &&& submit_job_error(*old(job), *agent, submission_hash, sig) is None
                &&& submission.job == old(job).address
                &&& submission.agent == agent.address
                &&& submission.submission_hash == submission_hash
                &&& submission.created_at == now
                &&& *final(job) == (JobPosting {
                    status: JobStatus::Submitted,
                    updated_at: now,
                    ..*old(job)
                })
            },
            Err(e) => {
                let sig = sig_check_outcome(
                    preceding,
                    agent.agent_signer@,
                    agent_message(
                        ACTION_SUBMIT_JOB,
                        program_id@,
                        agent.address@,
                        submit_job_payload(old(job).address@, submission_hash@),
                    ),
                );
                &&& Some(e) == submit_job_error(*old(job), *agent, submission_hash, sig)
                &&& *final(job) == *old(job)
            },
        },
{
    if !(job.status == JobStatus::Assigned) {
        return Err(WunderlandError::JobNotAssigned);
    }
    if !addr_eq(&job.assigned_agent, &agent.address) {
        return Err(WunderlandError::UnauthorizedJobAgent);
    }
    if !agent.is_active {
        return Err(WunderlandError::AgentInactive);
    }
    if is_zero_addr(&submission_hash) {
        return Err(WunderlandError::InvalidAmount);
    }
    let mut payload: Vec<u8> = Vec::new();
    push_bytes(&mut payload, job.address.as_slice());
    push_bytes(&mut payload, submission_hash.as_slice());
    proof {
        assert(payload@ =~= submit_job_payload(job.address@, submission_hash@));
    }
    let expected_message = build_agent_message(
        ACTION_SUBMIT_JOB,
        program_id,
        &agent.address,
        &payload,
    );
    match require_ed25519_signature_preceding_instruction(
        preceding,
        &agent.agent_signer,
        &expected_message,
    ) {
        Ok(()) => (),
        Err(e) => {
            return Err(e);
        },
    }
    let submission = JobSubmission {
        job: job.address,
        agent: agent.address,
        submission_hash,
        created_at: now,
    };
    job.status = JobStatus::Submitted;
    job.updated_at = now;
    Ok(submission)
}

/// The exact outcome of a submission approval's checks.
pub open spec fn approve_job_submission_error(
    job: JobPosting,
    escrow: JobEscrow,
    submission: JobSubmission,
    accepted_bid: JobBid,
    vault: AgentVault,
    creator: Wallet,
    min_reserve: u64,
) -> Option<WunderlandError> {
    let payout = accepted_bid.bid_lamports;
    let refund = escrow.amount - payout;
    if job.creator@ != creator.address@ {
        Some(WunderlandError::UnauthorizedJobCreator)
    } else if job.status != JobStatus::Submitted {
        Some(WunderlandError::JobNotSubmitted)
    } else if accepted_bid.address@ != job.accepted_bid@ {
        Some(WunderlandError::InvalidJobBid)
    } else if accepted_bid.job@ != job.address@ {
        Some(WunderlandError::InvalidJobBid)
    } else if accepted_bid.bidder_agent@ != job.assigned_agent@ {
        Some(WunderlandError::UnauthorizedJobAgent)
    } else if accepted_bid.status != JobBidStatus::Accepted {
        Some(WunderlandError::BidNotAccepted)
    } else if vault.agent@ != submission.agent@ {
        Some(WunderlandError::InvalidAgentVault)
    } else if escrow.amount == 0 {
        Some(WunderlandError::InvalidAmount)
    } else if payout == 0 {
        Some(WunderlandError::InvalidAmount)
    } else if payout > escrow.amount {
        Some(WunderlandError::InvalidAmount)
    } else if submission.agent@ != job.assigned_agent@ {
        Some(WunderlandError::UnauthorizedJobAgent)
    } else if escrow.lamports < min_reserve + escrow.amount {
        Some(WunderlandError::InsufficientJobEscrowBalance)
    } else if vault.lamports + payout > u64::MAX {
        Some(WunderlandError::ArithmeticOverflow)
    } else if creator.lamports + refund > u64::MAX {
        Some(WunderlandError::ArithmeticOverflow)
    } else {
        None
    }
}

/// Approves a submitted job: pays the accepted bid's exact amount — never
/// the full budget — out of escrow into the assigned agent's vault,
/// refunds any remainder (budget minus bid) to the creator, and marks the
/// job `Completed`.  Creator-only.  On failure nothing is mutated.
pub fn approve_job_submission(
    job: &mut JobPosting,
    escrow: &mut JobEscrow,
    submission: &JobSubmission,
    accepted_bid: &JobBid,
    vault: &mut AgentVault,
    creator: &mut Wallet,
    now: i64,
    min_reserve: u64,
) -> (r: Result<(), WunderlandError>)
    requires
        old(escrow).job@ == old(job).address@,
        submission.job@ == old(job).address@,
    ensures
        match r {
            Ok(()) => {
                let payout = accepted_bid.bid_lamports;
                let refund = old(escrow).amount - payout;
                &&& approve_job_submission_error(
                    *old(job),
                    *old(escrow),
                    *submission,
                    *accepted_bid,
                    *old(vault),
                    *old(creator),
                    min_reserve,
                ) is None
                &&& *final(job) == (JobPosting {
                    status: JobStatus::Completed,
                    updated_at: now,
                    ..*old(job)
                })
                &&& *final(escrow) == (JobEscrow {
                    amount: 0,
                    lamports: (old(escrow).lamports - old(escrow).amount) as u64,
                    ..*old(escrow)
                })
                &&& final(escrow).lamports >= min_reserve
                &&& *final(vault) == (AgentVault {
                    lamports: (old(vault).lamports + payout) as u64,
                    ..*old(vault)
                })
                &&& *final(creator) == (Wallet {
                    lamports: (old(creator).lamports + refund) as u64,
                    ..*old(creator)
                })
                &&& (final(vault).lamports - old(vault).lamports) + (final(creator).lamports
                    - old(creator).lamports) == old(escrow).amount
            },
            Err(e) => {
                &&& Some(e) == approve_job_submission_error(
                    *old(job),
                    *old(escrow),
                    *submission,
                    *accepted_bid,
                    *old(vault),
                    *old(creator),
                    min_reserve,
                )
                &&& *final(job) == *old(job)
                &&& *final(escrow) == *old(escrow)
                &&& *final(vault) == *old(vault)
                &&& *final(creator) == *old(creator)
            },
        },
{
    if !addr_eq(&job.creator, &creator.address) {
        return Err(WunderlandError::UnauthorizedJobCreator);
    }
    if !(job.status == JobStatus::Submitted) {
        return Err(WunderlandError::JobNotSubmitted);
    }
    if !addr_eq(&accepted_bid.address, &job.accepted_bid) {
        return Err(WunderlandError::InvalidJobBid);
    }
    if !addr_eq(&accepted_bid.job, &job.address) {
        return Err(WunderlandError::InvalidJobBid);
    }
    if !addr_eq(&accepted_bid.bidder_agent, &job.assigned_agent) {
        return Err(WunderlandError::UnauthorizedJobAgent);
    }
    if !(accepted_bid.status == JobBidStatus::Accepted) {
        return Err(WunderlandError::BidNotAccepted);
    }
    if !addr_eq(&vault.agent, &submission.agent) {
        return Err(WunderlandError::InvalidAgentVault);
    }
    let escrow_amount = escrow.amount;
    let payout_amount = accepted_bid.bid_lamports;
    if escrow_amount == 0 {
        return Err(WunderlandError::InvalidAmount);
    }
    if payout_amount == 0 {
        return Err(WunderlandError::InvalidAmount);
    }
    if payout_amount > escrow_amount {
        return Err(WunderlandError::InvalidAmount);
    }
    if !addr_eq(&submission.agent, &job.assigned_agent) {
        return Err(WunderlandError::UnauthorizedJobAgent);
    }
    if escrow.lamports < min_reserve || escrow.lamports - min_reserve < escrow_amount {
        return Err(WunderlandError::InsufficientJobEscrowBalance);
    }
    let new_vault_lamports = match vault.lamports.checked_add(payout_amount) {
        Some(v) => v,
        None => {
            return Err(WunderlandError::ArithmeticOverflow);
        },
    };
    let refund_amount = escrow_amount - payout_amount;
    let new_creator_lamports = match creator.lamports.checked_add(refund_amount) {
        Some(v) => v,
        None => {
            return Err(WunderlandError::ArithmeticOverflow);
        },
    };
    escrow.lamports = escrow.lamports - payout_amount;
    vault.lamports = new_vault_lamports;
    escrow.lamports = escrow.lamports - refund_amount;
    creator.lamports = new_creator_lamports;
    escrow.amount = 0;
    job.status = JobStatus::Completed;
    job.updated_at = now;
    Ok(())
}

} // verus!
