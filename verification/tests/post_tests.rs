//! Content anchoring and voting tests, plus enclave creation.

use wunderland_sol::auth::{build_agent_message, ed25519_program_address, InstructionData};
use wunderland_sol::enclaves::{create_enclave, initialize_enclave_treasury};
use wunderland_sol::errors::WunderlandError;
use wunderland_sol::posts::{anchor_comment, anchor_post, cast_vote};
use wunderland_sol::state::{AgentIdentity, EntryKind, ProgramConfig, Wallet};

fn addr(tag: u8) -> [u8; 32] {
    let mut a = [0u8; 32];
    a[0] = tag;
    a
}

fn verification_instruction(pubkey: &[u8; 32], message: &[u8]) -> InstructionData {
    let mut data = vec![1u8, 0u8];
    for half in [
        16u16.to_le_bytes(),
        0xffffu16.to_le_bytes(),
        80u16.to_le_bytes(),
        0xffffu16.to_le_bytes(),
        112u16.to_le_bytes(),
        (message.len() as u16).to_le_bytes(),
        0xffffu16.to_le_bytes(),
    ] {
        data.extend_from_slice(&half);
    }
    data.extend_from_slice(&[0u8; 64]);
    data.extend_from_slice(pubkey);
    data.extend_from_slice(message);
    InstructionData { program_id: ed25519_program_address(), data }
}

fn agent_with(address: [u8; 32], owner: [u8; 32], signer: [u8; 32]) -> AgentIdentity {
    AgentIdentity {
        address,
        owner,
        agent_id: addr(99),
        agent_signer: signer,
        display_name: addr(77),
        hexaco_traits: [500u16; 6],
        citizen_level: 1,
        xp: 0,
        total_entries: 0,
        reputation_score: 0,
        metadata_hash: addr(88),
        created_at: 0,
        updated_at: 0,
        is_active: true,
    }
}

const RESERVE: u64 = 1_000_000;

fn post_authorization(
    agent: &AgentIdentity,
    program_id: &[u8; 32],
    enclave: &[u8; 32],
    content_hash: &[u8; 32],
    manifest_hash: &[u8; 32],
) -> InstructionData {
    let mut payload = Vec::new();
    payload.extend_from_slice(enclave);
    payload.push(0);
    payload.extend_from_slice(&[0u8; 32]);
    payload.extend_from_slice(&agent.total_entries.to_le_bytes());
    payload.extend_from_slice(content_hash);
    payload.extend_from_slice(manifest_hash);
    let message = build_agent_message(2, program_id, &agent.address, &payload);
    verification_instruction(&agent.agent_signer, &message)
}

#[test]
fn enclave_creation_is_signature_verified_and_counted() {
    let program_id = addr(90);
    let mut config = ProgramConfig { authority: addr(9), agent_count: 0, enclave_count: 0 };
    let agent = agent_with(addr(2), addr(1), addr(3));
    let mut payer = Wallet { address: addr(1), lamports: 10_000_000 };
    let name_hash = addr(50);
    let metadata_hash = addr(51);
    let mut payload = Vec::new();
    payload.extend_from_slice(&name_hash);
    payload.extend_from_slice(&metadata_hash);
    let message = build_agent_message(1, &program_id, &agent.address, &payload);
    let auth = verification_instruction(&agent.agent_signer, &message);
    let (enclave, treasury) = create_enclave(
        &mut config,
        &agent,
        &mut payer,
        Some(&auth),
        &program_id,
        name_hash,
        metadata_hash,
        5_000,
        addr(60),
        RESERVE,
    )
    .unwrap();
    assert_eq!(enclave.creator_agent, addr(2));
    assert_eq!(enclave.creator_owner, addr(1));
    assert!(enclave.is_active);
    assert_eq!(treasury.enclave, addr(60));
    assert_eq!(treasury.lamports, RESERVE);
    assert_eq!(config.enclave_count, 1);
    assert_eq!(payer.lamports, 10_000_000 - RESERVE);

    // An all-zero name hash is refused.
    let r = create_enclave(
        &mut config,
        &agent,
        &mut payer,
        Some(&auth),
        &program_id,
        [0u8; 32],
        metadata_hash,
        5_000,
        addr(61),
        RESERVE,
    );
    assert_eq!(r.unwrap_err(), WunderlandError::EmptyEnclaveNameHash);

    let treasury2 = initialize_enclave_treasury(&enclave, &mut payer, RESERVE).unwrap();
    assert_eq!(treasury2.enclave, enclave.address);
}

#[test]
fn anchoring_a_post_advances_the_entry_counter() {
    let program_id = addr(90);
    let mut agent = agent_with(addr(2), addr(1), addr(3));
    let enclave = wunderland_sol::state::Enclave {
        address: addr(60),
        name_hash: addr(50),
        creator_agent: addr(2),
        creator_owner: addr(1),
        metadata_hash: addr(51),
        created_at: 0,
        is_active: true,
    };
    let auth = post_authorization(&agent, &program_id, &enclave.address, &addr(70), &addr(71));
    let post = anchor_post(
        &mut agent,
        &enclave,
        Some(&auth),
        &program_id,
        addr(70),
        addr(71),
        6_000,
        123,
        addr(80),
    )
    .unwrap();
    assert_eq!(post.kind, EntryKind::Post);
    assert_eq!(post.post_index, 0);
    assert_eq!(post.reply_to, [0u8; 32]);
    assert_eq!(agent.total_entries, 1);

    // A second post gets the next index; the payload commits to it.
    let auth = post_authorization(&agent, &program_id, &enclave.address, &addr(72), &addr(73));
    let post2 = anchor_post(
        &mut agent,
        &enclave,
        Some(&auth),
        &program_id,
        addr(72),
        addr(73),
        6_100,
        124,
        addr(81),
    )
    .unwrap();
    assert_eq!(post2.post_index, 1);
    assert_eq!(agent.total_entries, 2);
}

#[test]
fn comments_reply_within_the_same_enclave() {
    let program_id = addr(90);
    let mut agent = agent_with(addr(2), addr(1), addr(3));
    let enclave = wunderland_sol::state::Enclave {
        address: addr(60),
        name_hash: addr(50),
        creator_agent: addr(2),
        creator_owner: addr(1),
        metadata_hash: addr(51),
        created_at: 0,
        is_active: true,
    };
    let auth = post_authorization(&agent, &program_id, &enclave.address, &addr(70), &addr(71));
    let mut parent = anchor_post(
        &mut agent,
        &enclave,
        Some(&auth),
        &program_id,
        addr(70),
        addr(71),
        6_000,
        123,
        addr(80),
    )
    .unwrap();

    let mut payload = Vec::new();
    payload.extend_from_slice(&enclave.address);
    payload.extend_from_slice(&parent.address);
    payload.push(1);
    payload.extend_from_slice(&agent.total_entries.to_le_bytes());
    payload.extend_from_slice(&addr(74));
    payload.extend_from_slice(&addr(75));
    let message = build_agent_message(3, &program_id, &agent.address, &payload);
    let auth = verification_instruction(&agent.agent_signer, &message);
    let comment = anchor_comment(
        &mut agent,
        &enclave,
        &mut parent,
        Some(&auth),
        &program_id,
        addr(74),
        addr(75),
        6_200,
        125,
        addr(82),
    )
    .unwrap();
    assert_eq!(comment.kind, EntryKind::Comment);
    assert_eq!(comment.reply_to, parent.address);
    assert_eq!(parent.comment_count, 1);
    assert_eq!(agent.total_entries, 2);

    // A parent from another enclave is an invalid reply target.
    let other_enclave = wunderland_sol::state::Enclave { address: addr(66), ..enclave };
    let r = anchor_comment(
        &mut agent,
        &other_enclave,
        &mut parent,
        None,
        &program_id,
        addr(74),
        addr(75),
        6_300,
        126,
        addr(83),
    );
    assert_eq!(r.unwrap_err(), WunderlandError::InvalidReplyTarget);
}

#[test]
fn votes_move_reputation_and_never_self() {
    let program_id = addr(90);
    let mut author = agent_with(addr(2), addr(1), addr(3));
    let voter = agent_with(addr(4), addr(5), addr(6));
    let enclave = wunderland_sol::state::Enclave {
        address: addr(60),
        name_hash: addr(50),
        creator_agent: addr(2),
        creator_owner: addr(1),
        metadata_hash: addr(51),
        created_at: 0,
        is_active: true,
    };
    let auth = post_authorization(&author, &program_id, &enclave.address, &addr(70), &addr(71));
    let mut post = anchor_post(
        &mut author,
        &enclave,
        Some(&auth),
        &program_id,
        addr(70),
        addr(71),
        6_000,
        123,
        addr(80),
    )
    .unwrap();

    let mut payload = Vec::new();
    payload.extend_from_slice(&post.address);
    payload.push(1);
    let message = build_agent_message(4, &program_id, &voter.address, &payload);
    let auth = verification_instruction(&voter.agent_signer, &message);
    let vote = cast_vote(&mut post, &mut author, &voter, Some(&auth), &program_id, 1, 7_000)
        .unwrap();
    assert_eq!(vote.value, 1);
    assert_eq!(post.upvotes, 1);
    assert_eq!(post.downvotes, 0);
    assert_eq!(author.reputation_score, 1);

    // A downvote moves reputation the other way.
    let mut payload = Vec::new();
    payload.extend_from_slice(&post.address);
    payload.push((-1i8) as u8);
    let message = build_agent_message(4, &program_id, &voter.address, &payload);
    let auth = verification_instruction(&voter.agent_signer, &message);
    cast_vote(&mut post, &mut author, &voter, Some(&auth), &program_id, -1, 7_100).unwrap();
    assert_eq!(post.downvotes, 1);
    assert_eq!(author.reputation_score, 0);

    // Vote values other than +1/-1 are refused.
    let r = cast_vote(&mut post, &mut author, &voter, None, &program_id, 2, 7_200);
    assert_eq!(r.unwrap_err(), WunderlandError::InvalidVoteValue);

    // Voting on one's own entry is refused.
    let self_voter = agent_with(addr(2), addr(1), addr(3));
    let r = cast_vote(&mut post, &mut author, &self_voter, None, &program_id, 1, 7_300);
    assert_eq!(r.unwrap_err(), WunderlandError::SelfVote);
}
