//! Signature verification adapter tests: the preceding-instruction check
//! and the canonical message layout.

use wunderland_sol::auth::{
    build_agent_message, ed25519_program_address, require_ed25519_signature_preceding_instruction,
    InstructionData,
};
use wunderland_sol::errors::WunderlandError;

fn addr(tag: u8) -> [u8; 32] {
    let mut a = [0u8; 32];
    a[0] = tag;
    a
}

/// Builds a well-formed single-signature verification instruction whose
/// embedded key and message are the given ones.
fn verification_instruction(pubkey: &[u8; 32], message: &[u8]) -> InstructionData {
    let mut data = vec![1u8, 0u8];
    for half in [
        16u16.to_le_bytes(),
        0xffffu16.to_le_bytes(),
        80u16.to_le_bytes(),
        0xffffu16.to_le_bytes(),
        112u16.to_le_bytes(),
        (message.len() as u16).to_le_bytes(),
        0xffffu16.to_le_bytes(),
    ] {
        data.extend_from_slice(&half);
    }
    data.extend_from_slice(&[0u8; 64]);
    data.extend_from_slice(pubkey);
    data.extend_from_slice(message);
    InstructionData { program_id: ed25519_program_address(), data }
}

#[test]
fn matching_key_and_message_pass() {
    let pk = addr(2);
    let msg = b"an authorized action".to_vec();
    let ix = verification_instruction(&pk, &msg);
    assert!(require_ed25519_signature_preceding_instruction(Some(&ix), &pk, &msg).is_ok());
}

#[test]
fn missing_preceding_instruction_is_reported() {
    let r = require_ed25519_signature_preceding_instruction(None, &addr(2), &vec![1, 2, 3]);
    assert_eq!(r.unwrap_err(), WunderlandError::MissingEd25519Instruction);
}

#[test]
fn wrong_program_is_not_a_verification_instruction() {
    let pk = addr(2);
    let msg = vec![9u8; 4];
    let mut ix = verification_instruction(&pk, &msg);
    ix.program_id = addr(77);
    let r = require_ed25519_signature_preceding_instruction(Some(&ix), &pk, &msg);
    assert_eq!(r.unwrap_err(), WunderlandError::MissingEd25519Instruction);
}

#[test]
fn key_mismatch_is_distinguished_from_message_mismatch() {
    let pk = addr(2);
    let msg = vec![9u8; 4];
    let ix = verification_instruction(&pk, &msg);
    let r = require_ed25519_signature_preceding_instruction(Some(&ix), &addr(3), &msg);
    assert_eq!(r.unwrap_err(), WunderlandError::SignaturePublicKeyMismatch);
    let r = require_ed25519_signature_preceding_instruction(Some(&ix), &pk, &vec![9u8; 3]);
    assert_eq!(r.unwrap_err(), WunderlandError::SignatureMessageMismatch);
}

#[test]
fn multiple_signatures_are_refused() {
    let pk = addr(2);
    let msg = vec![9u8; 4];
    let mut ix = verification_instruction(&pk, &msg);
    ix.data[0] = 2;
    let r = require_ed25519_signature_preceding_instruction(Some(&ix), &pk, &msg);
    assert_eq!(r.unwrap_err(), WunderlandError::InvalidEd25519Instruction);
}

#[test]
fn truncated_and_out_of_bounds_instructions_are_refused() {
    let pk = addr(2);
    let msg = vec![9u8; 4];
    // Too short for the offsets header.
    let short = InstructionData { program_id: ed25519_program_address(), data: vec![1, 0, 16, 0] };
    let r = require_ed25519_signature_preceding_instruction(Some(&short), &pk, &msg);
    assert_eq!(r.unwrap_err(), WunderlandError::InvalidEd25519Instruction);
    // Public key region reaching past the end.
    let mut ix = verification_instruction(&pk, &msg);
    let pk_offset = (ix.data.len() - 10) as u16;
    ix.data[6] = pk_offset.to_le_bytes()[0];
    ix.data[7] = pk_offset.to_le_bytes()[1];
    let r = require_ed25519_signature_preceding_instruction(Some(&ix), &pk, &msg);
    assert_eq!(r.unwrap_err(), WunderlandError::InvalidEd25519Instruction);
}

#[test]
fn data_referenced_from_another_instruction_is_refused() {
    let pk = addr(2);
    let msg = vec![9u8; 4];
    let mut ix = verification_instruction(&pk, &msg);
    // Point the message region at instruction 0 instead of this one.
    ix.data[14] = 0;
    ix.data[15] = 0;
    let r = require_ed25519_signature_preceding_instruction(Some(&ix), &pk, &msg);
    assert_eq!(r.unwrap_err(), WunderlandError::InvalidEd25519Instruction);
}

#[test]
fn message_layout_is_domain_separated() {
    let program_id = addr(90);
    let agent_identity = addr(7);
    let payload = vec![1u8, 2, 3];
    let message = build_agent_message(4, &program_id, &agent_identity, &payload);
    let mut expected = b"WUNDERLAND_SOL_V2".to_vec();
    expected.push(4);
    expected.extend_from_slice(&program_id);
    expected.extend_from_slice(&agent_identity);
    expected.extend_from_slice(&payload);
    assert_eq!(message, expected);
}

#[test]
fn any_payload_byte_changes_the_message() {
    let program_id = addr(90);
    let agent_identity = addr(7);
    let a = build_agent_message(6, &program_id, &agent_identity, &vec![1u8, 2, 3]);
    let b = build_agent_message(6, &program_id, &agent_identity, &vec![1u8, 2, 4]);
    let c = build_agent_message(7, &program_id, &agent_identity, &vec![1u8, 2, 3]);
    assert_ne!(a, b);
    assert_ne!(a, c);
}
