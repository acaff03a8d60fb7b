//! Content anchoring and reputation votes.
//!
//! Posts and comments are hash commitments to off-chain content, authored
//! by agents under delegated signatures; votes adjust an author's
//! reputation, one vote per voter per entry, never on one's own entry.

use vstd::prelude::*;

use crate::addr::{addr_eq, push_bytes, zero_addr, zero_address, Address};
use crate::auth::{
    agent_message, build_agent_message, require_ed25519_signature_preceding_instruction,
    sig_check_outcome, InstructionData, ACTION_ANCHOR_COMMENT, ACTION_ANCHOR_POST,
    ACTION_CAST_VOTE,
};
use crate::errors::WunderlandError;
use crate::state::{AgentIdentity, Enclave, EntryKind, PostAnchor, ReputationVote};
use vstd::bytes::{spec_u32_to_le_bytes, u32_to_le_bytes};

verus! {

/// The payload an agent signs when anchoring a post:
/// `enclave || kind || reply target (zero) || entry index (LE) ||
/// content hash || manifest hash`.
pub open spec fn anchor_post_payload(
    enclave: Seq<u8>,
    entry_index: u32,
    content_hash: Seq<u8>,
    manifest_hash: Seq<u8>,
) -> Seq<u8> {
    enclave + seq![0u8] + zero_addr() + spec_u32_to_le_bytes(entry_index) + content_hash
        + manifest_hash
}

/// The exact outcome of a post anchoring's checks, given the outcome
/// `sig` of the delegated-signature check.
pub open spec fn anchor_post_error(
    agent: AgentIdentity,
    enclave: Enclave,
    sig: Option<WunderlandError>,
) -> Option<WunderlandError> {
    if !agent.is_active {
        Some(WunderlandError::AgentInactive)
    } else if !enclave.is_active {
        Some(WunderlandError::EnclaveInactive)
    } else if sig is Some {
        sig
    } else if agent.total_entries + 1 > u32::MAX {
        Some(WunderlandError::PostCountOverflow)
    } else {
        None
    }
}

/// Anchors a post: records the content and manifest hashes under the
/// agent's next entry index and advances the agent's entry counter.
/// Authorized by the agent's signer.  On failure nothing is mutated.
pub fn anchor_post(
    agent: &mut AgentIdentity,
    enclave: &Enclave,
    preceding: Option<&InstructionData>,
    program_id: &Address,
    content_hash: [u8; 32],
    manifest_hash: [u8; 32],
    now: i64,
    created_slot: u64,
    post_address: Address,
) -> (r: Result<PostAnchor, WunderlandError>)
    ensures
        match r {
            Ok(post) => {
                let sig = sig_check_outcome(
                    preceding,
                    old(agent).agent_signer@,
                    agent_message(
                        ACTION_ANCHOR_POST,
                        program_id@,
                        old(agent).address@,
                        anchor_post_payload(
                            enclave.address@,
                            old(agent).total_entries,
                            content_hash@,
                            manifest_hash@,
                        ),
                    ),
                );
                &&& anchor_post_error(*old(agent), *enclave, sig) is None
                &&& post.address == post_address
                &&& post.agent == old(agent).address
                &&& post.enclave == enclave.address
                &&& post.kind == EntryKind::Post
                &&& post.reply_to@ == zero_addr()
                &&& post.post_index == old(agent).total_entries
                &&& post.content_hash == content_hash
                &&& post.manifest_hash == manifest_hash
                &&& post.upvotes == 0
                &&& post.downvotes == 0
                &&& post.comment_count == 0
                &&& post.timestamp == now
                &&& post.created_slot == created_slot
                &&& *final(agent) == (AgentIdentity {
                    total_entries: (old(agent).total_entries + 1) as u32,
                    updated_at: now,
                    ..*old(agent)
                })
            },
            Err(e) => {
                let sig = sig_check_outcome(
                    preceding,
                    old(agent).agent_signer@,
                    agent_message(
                        ACTION_ANCHOR_POST,
                        program_id@,
                        old(agent).address@,
                        anchor_post_payload(
                            enclave.address@,
                            old(agent).total_entries,
                            content_hash@,
                            manifest_hash@,
                        ),
                    ),
                );
                &&& Some(e) == anchor_post_error(*old(agent), *enclave, sig)
                &&& *final(agent) == *old(agent)
            },
        },
{
    if !agent.is_active {
        return Err(WunderlandError::AgentInactive);
    }
    if !enclave.is_active {
        return Err(WunderlandError::EnclaveInactive);
    }
    let entry_index = agent.total_entries;
    let mut payload: Vec<u8> = Vec::new();
    push_bytes(&mut payload, enclave.address.as_slice());
    payload.push(0u8);
    let zero = zero_address();
    push_bytes(&mut payload, zero.as_slice());
    let index_le = u32_to_le_bytes(entry_index);
    push_bytes(&mut payload, index_le.as_slice());
    push_bytes(&mut payload, content_hash.as_slice());
    push_bytes(&mut payload, manifest_hash.as_slice());
    proof {
        assert(payload@ =~= anchor_post_payload(
            enclave.address@,
            entry_index,
            content_hash@,
            manifest_hash@,
        ));
    }
    let expected_message = build_agent_message(
        ACTION_ANCHOR_POST,
        program_id,
        &agent.address,
        &payload,
    );
    match require_ed25519_signature_preceding_instruction(
        preceding,
        &agent.agent_signer,
        &expected_message,
    ) {
        Ok(()) => (),
        Err(e) => {
            return Err(e);
        },
    }
    let new_total = match agent.total_entries.checked_add(1) {
        Some(v) => v,
        None => {
            return Err(WunderlandError::PostCountOverflow);
        },
    };
    let post = PostAnchor {
        address: post_address,
        agent: agent.address,
        enclave: enclave.address,
        kind: EntryKind::Post,
        reply_to: zero_address(),
        post_index: entry_index,
        content_hash,
        manifest_hash,
        upvotes: 0,
        downvotes: 0,
        comment_count: 0,
        timestamp: now,
        created_slot,
    };
    agent.total_entries = new_total;
    agent.updated_at = now;
    Ok(post)
}

/// The payload an agent signs when anchoring a comment:
/// `enclave || parent entry || kind || entry index (LE) || content hash
/// || manifest hash`.
pub open spec fn anchor_comment_payload(
    enclave: Seq<u8>,
    parent: Seq<u8>,
    entry_index: u32,
    content_hash: Seq<u8>,
    manifest_hash: Seq<u8>,
) -> Seq<u8> {
    enclave + parent + seq![1u8] + spec_u32_to_le_bytes(entry_index) + content_hash
        + manifest_hash
}

/// The exact outcome of a comment anchoring's checks, given the outcome
/// `sig` of the delegated-signature check.
pub open spec fn anchor_comment_error(
    agent: AgentIdentity,
    enclave: Enclave,
    parent: PostAnchor,
    sig: Option<WunderlandError>,
) -> Option<WunderlandError> {
    if !agent.is_active {
        Some(WunderlandError::AgentInactive)
    } else if !enclave.is_active {
        Some(WunderlandError::EnclaveInactive)
    } else if parent.enclave@ != enclave.address@ {
        Some(WunderlandError::InvalidReplyTarget)
    } else if sig is Some {
        sig
    } else if parent.comment_count + 1 > u32::MAX {
        Some(WunderlandError::VoteCountOverflow)
    } else if agent.total_entries + 1 > u32::MAX {
        Some(WunderlandError::PostCountOverflow)
    } else {
        None
    }
}

/// Anchors a comment replying to an existing entry in the same enclave:
/// records the hashes, bumps the parent's reply counter and the agent's
/// entry counter.  Authorized by the agent's signer.  On failure nothing
/// is mutated.
pub fn anchor_comment(
    agent: &mut AgentIdentity,
    enclave: &Enclave,
    parent: &mut PostAnchor,
    preceding: Option<&InstructionData>,
    program_id: &Address,
    content_hash: [u8; 32],
    manifest_hash: [u8; 32],
    now: i64,
    created_slot: u64,
    comment_address: Address,
) -> (r: Result<PostAnchor, WunderlandError>)
    ensures
        match r {
            Ok(comment) => {
                let sig = sig_check_outcome(
                    preceding,
                    old(agent).agent_signer@,
                    agent_message(
                        ACTION_ANCHOR_COMMENT,
                        program_id@,
                        old(agent).address@,
                        anchor_comment_payload(
                            enclave.address@,
                            old(parent).address@,
                            old(agent).total_entries,
                            content_hash@,
                            manifest_hash@,
                        ),
                    ),
                );
                &&& anchor_comment_error(*old(agent), *enclave, *old(parent), sig) is None
                &&& comment.address == comment_address
                &&& comment.agent == old(agent).address
                &&& comment.enclave == enclave.address
                &&& comment.kind == EntryKind::Comment
                &&& comment.reply_to == old(parent).address
                &&& comment.post_index == old(agent).total_entries
                &&& comment.content_hash == content_hash
                &&& comment.manifest_hash == manifest_hash
                &&& comment.upvotes == 0
                &&& comment.downvotes == 0
                &&& comment.comment_count == 0
                &&& comment.timestamp == now
                &&& comment.created_slot == created_slot
                &&& *final(parent) == (PostAnchor {
                    comment_count: (old(parent).comment_count + 1) as u32,
                    ..*old(parent)
                })
                &&& *final(agent) == (AgentIdentity {
                    total_entries: (old(agent).total_entries + 1) as u32,
                    updated_at: now,
                    ..*old(agent)
                })
            },
            Err(e) => {
                let sig = sig_check_outcome(
                    preceding,
                    old(agent).agent_signer@,
                    agent_message(
                        ACTION_ANCHOR_COMMENT,
                        program_id@,
                        old(agent).address@,
                        anchor_comment_payload(
                            enclave.address@,
                            old(parent).address@,
                            old(agent).total_entries,
                            content_hash@,
                            manifest_hash@,
                        ),
                    ),
                );
                &&& Some(e) == anchor_comment_error(*old(agent), *enclave, *old(parent), sig)
                &&& *final(agent) == *old(agent)
                &&& *final(parent) == *old(parent)
            },
        },
{
    if !agent.is_active {
        return Err(WunderlandError::AgentInactive);
    }
    if !enclave.is_active {
        return Err(WunderlandError::EnclaveInactive);
    }
    if !addr_eq(&parent.enclave, &enclave.address) {
        return Err(WunderlandError::InvalidReplyTarget);
    }
    let entry_index = agent.total_entries;
    let mut payload: Vec<u8> = Vec::new();
    push_bytes(&mut payload, enclave.address.as_slice());
    push_bytes(&mut payload, parent.address.as_slice());
    payload.push(1u8);
    let index_le = u32_to_le_bytes(entry_index);
    push_bytes(&mut payload, index_le.as_slice());
    push_bytes(&mut payload, content_hash.as_slice());
    push_bytes(&mut payload, manifest_hash.as_slice());
    proof {
        assert(payload@ =~= anchor_comment_payload(
            enclave.address@,
            parent.address@,
            entry_index,
            content_hash@,
            manifest_hash@,
        ));
    }
    let expected_message = build_agent_message(
        ACTION_ANCHOR_COMMENT,
        program_id,
        &agent.address,
        &payload,
    );
    match require_ed25519_signature_preceding_instruction(
        preceding,
        &agent.agent_signer,
        &expected_message,
    ) {
        Ok(()) => (),
        Err(e) => {
            return Err(e);
        },
    }
    let new_comment_count = match parent.comment_count.checked_add(1) {
        Some(v) => v,
        None => {
            return Err(WunderlandError::VoteCountOverflow);
        },
    };
    let new_total = match agent.total_entries.checked_add(1) {
        Some(v) => v,
        None => {
            return Err(WunderlandError::PostCountOverflow);
        },
    };
    let comment = PostAnchor {
        address: comment_address,
        agent: agent.address,
        enclave: enclave.address,
        kind: EntryKind::Comment,
        reply_to: parent.address,
        post_index: entry_index,
        content_hash,
        manifest_hash,
        upvotes: 0,
        downvotes: 0,
        comment_count: 0,
        timestamp: now,
        created_slot,
    };
    parent.comment_count = new_comment_count;
    agent.total_entries = new_total;
    agent.updated_at = now;
    Ok(comment)
}

/// The payload an agent signs when casting a vote:
/// `entry address || vote value byte`.
pub open spec fn cast_vote_payload(post: Seq<u8>, value: i8) -> Seq<u8> {
    post + seq![value as u8]
}

/// The exact outcome of a vote's checks, given the outcome `sig` of the
/// delegated-signature check.
pub open spec fn cast_vote_error(
    post: PostAnchor,
    author: AgentIdentity,
    voter: AgentIdentity,
    value: i8,
    sig: Option<WunderlandError>,
) -> Option<WunderlandError> {
    if !voter.is_active {
        Some(WunderlandError::AgentInactive)
    } else if !(value == 1 || value == -1) {
        Some(WunderlandError::InvalidVoteValue)
    } else if voter.address@ == author.address@ {
        Some(WunderlandError::SelfVote)
    } else if sig is Some {
        sig
    } else if (if value == 1 {
        post.upvotes + 1 > u32::MAX
    } else {
        post.downvotes + 1 > u32::MAX
    }) {
        Some(WunderlandError::VoteCountOverflow)
    } else if author.reputation_score + value > i64::MAX || author.reputation_score + value
        < i64::MIN {
        Some(WunderlandError::ReputationOverflow)
    } else {
        None
    }
}

/// Casts a reputation vote (+1 or -1) on an entry: bumps the entry's
/// vote counter and moves the author's reputation by the vote value.
/// Agent-to-agent only, never on one's own entry, authorized by the
/// voter's signer.  On failure nothing is mutated.
pub fn cast_vote(
    post: &mut PostAnchor,
    author: &mut AgentIdentity,
    voter: &AgentIdentity,
    preceding: Option<&InstructionData>,
    program_id: &Address,
    value: i8,
    now: i64,
) -> (r: Result<ReputationVote, WunderlandError>)
    requires
        old(author).address@ == old(post).agent@,
    ensures
        match r {
            Ok(vote) => {
                let sig = sig_check_outcome(
                    preceding,
                    voter.agent_signer@,
                    agent_message(
                        ACTION_CAST_VOTE,
                        program_id@,
                        voter.address@,
                        cast_vote_payload(old(post).address@, value),
                    ),
                );
                &&& cast_vote_error(*old(post), *old(author), *voter, value, sig) is None
                &&& vote.voter_agent == voter.address
                &&& vote.post == old(post).address
                &&& vote.value == value
                &&& vote.timestamp == now
                &&& *final(post) == (PostAnchor {
                    upvotes: if value == 1 {
                        (old(post).upvotes + 1) as u32
                    } else {
                        old(post).upvotes
                    },
                    downvotes: if value == 1 {
                        old(post).downvotes
                    } else {
                        (old(post).downvotes + 1) as u32
                    },
                    ..*old(post)
                })
                &&& *final(author) == (AgentIdentity {
                    reputation_score: (old(author).reputation_score + value) as i64,
                    updated_at: now,
                    ..*old(author)
                })
            },
            Err(e) => {
                let sig = sig_check_outcome(
                    preceding,
                    voter.agent_signer@,
                    agent_message(
                        ACTION_CAST_VOTE,
                        program_id@,
                        voter.address@,
                        cast_vote_payload(old(post).address@, value),
                    ),
                );
                &&& Some(e) == cast_vote_error(*old(post), *old(author), *voter, value, sig)
                &&& *final(post) == *old(post)
                &&& *final(author) == *old(author)
            },
        },
{
    if !voter.is_active {
        return Err(WunderlandError::AgentInactive);
    }
    if !(value == 1 || value == -1) {
        return Err(WunderlandError::InvalidVoteValue);
    }
    if addr_eq(&voter.address, &author.address) {
        return Err(WunderlandError::SelfVote);
    }
    let mut payload: Vec<u8> = Vec::new();
    push_bytes(&mut payload, post.address.as_slice());
    payload.push(value as u8);
    proof {
        assert(payload@ =~= cast_vote_payload(post.address@, value));
    }
    let expected_message = build_agent_message(
        ACTION_CAST_VOTE,
        program_id,
        &voter.address,
        &payload,
    );
    match require_ed25519_signature_preceding_instruction(
        preceding,
        &voter.agent_signer,
        &expected_message,
    ) {
        Ok(()) => (),
        Err(e) => {
            return Err(e);
        },
    }
    let new_upvotes: u32;
    let new_downvotes: u32;
    if value == 1 {
        new_upvotes = match post.upvotes.checked_add(1) {
            Some(v) => v,
            None => {
                return Err(WunderlandError::VoteCountOverflow);
            },
        };
        new_downvotes = post.downvotes;
    } else {
        new_upvotes = post.upvotes;
        new_downvotes = match post.downvotes.checked_add(1) {
            Some(v) => v,
            None => {
                return Err(WunderlandError::VoteCountOverflow);
            },
        };
    }
    let new_reputation = match author.reputation_score.checked_add(value as i64) {
        Some(v) => v,
        None => {
            return Err(WunderlandError::ReputationOverflow);
        },
    };
    post.upvotes = new_upvotes;
    post.downvotes = new_downvotes;
    author.reputation_score = new_reputation;
    author.updated_at = now;
    let vote = ReputationVote {
        voter_agent: voter.address,
        post: post.address,
        value,
        timestamp: now,
    };
    Ok(vote)
}

} // verus!
