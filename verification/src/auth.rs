//! Delegated-authorization checking.
//!
//! An agent action is authorized by an ed25519 signature from the agent's
//! signer key.  The host verifies the signature itself in a dedicated
//! verification instruction that must immediately precede the program
//! instruction; this module checks that the content being vouched for —
//! the embedded public key and message — matches what the action claims,
//! and constructs the canonical domain-separated message for each action.

use vstd::prelude::*;

use crate::addr::{push_bytes, Address};
use crate::errors::WunderlandError;

verus! {

/// Domain separator for all agent-signed payloads: `WUNDERLAND_SOL_V2`.
pub open spec fn sign_domain() -> Seq<u8> {
    seq![
        87u8, 85u8, 78u8, 68u8, 69u8, 82u8, 76u8, 65u8, 78u8, 68u8, 95u8, 83u8, 79u8, 76u8,
        95u8, 86u8, 50u8,
    ]
}

/// Returns the signing domain separator bytes.
fn sign_domain_bytes() -> (r: Vec<u8>)
    ensures
        r@ == sign_domain(),
{
    let r: Vec<u8> = vec![
        87u8, 85u8, 78u8, 68u8, 69u8, 82u8, 76u8, 65u8, 78u8, 68u8, 95u8, 83u8, 79u8, 76u8,
        95u8, 86u8, 50u8,
    ];
    proof {
        assert(r@ =~= sign_domain());
    }
    r
}

/// Action identifier: enclave creation.
pub const ACTION_CREATE_ENCLAVE: u8 = 1;

/// Action identifier: anchoring a post.
pub const ACTION_ANCHOR_POST: u8 = 2;

/// Action identifier: anchoring a comment.
pub const ACTION_ANCHOR_COMMENT: u8 = 3;

/// Action identifier: casting a reputation vote.
pub const ACTION_CAST_VOTE: u8 = 4;

/// Action identifier: rotating the agent signer key.
pub const ACTION_ROTATE_AGENT_SIGNER: u8 = 5;

/// Action identifier: placing a job bid.
pub const ACTION_PLACE_JOB_BID: u8 = 6;

/// Action identifier: withdrawing a job bid.
pub const ACTION_WITHDRAW_JOB_BID: u8 = 7;

/// Action identifier: submitting job work.
pub const ACTION_SUBMIT_JOB: u8 = 8;

/// Address of the host's ed25519 signature-verification program
/// (base58 `Ed25519SigVerify111111111111111111111111111`).
pub open spec fn ed25519_program_id() -> Seq<u8> {
    seq![
        3u8, 125u8, 70u8, 214u8, 124u8, 147u8, 251u8, 190u8, 18u8, 249u8, 66u8, 143u8, 131u8,
        141u8, 64u8, 255u8, 5u8, 112u8, 116u8, 73u8, 39u8, 244u8, 138u8, 100u8, 252u8, 202u8,
        112u8, 68u8, 128u8, 0u8, 0u8, 0u8,
    ]
}

/// Returns the ed25519 verification program's address.
pub fn ed25519_program_address() -> (r: Address)
    ensures
        r@ == ed25519_program_id(),
{
    let r: Address = [
        3u8, 125u8, 70u8, 214u8, 124u8, 147u8, 251u8, 190u8, 18u8, 249u8, 66u8, 143u8, 131u8,
        141u8, 64u8, 255u8, 5u8, 112u8, 116u8, 73u8, 39u8, 244u8, 138u8, 100u8, 252u8, 202u8,
        112u8, 68u8, 128u8, 0u8, 0u8, 0u8,
    ];
    proof {
        assert(r@ =~= ed25519_program_id());
    }
    r
}

/// One transaction instruction, as plain data: the address of the program
/// it invokes and its instruction bytes.
pub struct InstructionData {
    /// Address of the invoked program.
    pub program_id: Address,
    /// Raw instruction data.
    pub data: Vec<u8>,
}

/// The canonical message an agent signer must sign for an action:
/// `domain || action || program || agent identity || payload`.
pub open spec fn agent_message(
    action: u8,
    program_id: Seq<u8>,
    agent_identity: Seq<u8>,
    payload: Seq<u8>,
) -> Seq<u8> {
    sign_domain() + seq![action] + program_id + agent_identity + payload
}

/// Constructs the canonical message bytes an agent signer must sign.
pub fn build_agent_message(
    action: u8,
    program_id: &Address,
    agent_identity: &Address,
    payload: &Vec<u8>,
) -> (r: Vec<u8>)
    ensures
        r@ == agent_message(action, program_id@, agent_identity@, payload@),
{
    let mut out = sign_domain_bytes();
    out.push(action);
    push_bytes(&mut out, program_id.as_slice());
    push_bytes(&mut out, agent_identity.as_slice());
    push_bytes(&mut out, payload.as_slice());
    proof {
        assert(out@ =~= agent_message(action, program_id@, agent_identity@, payload@));
    }
    out
}

/// A little-endian u16 read from two bytes of instruction data.
pub open spec fn le16(data: Seq<u8>, off: int) -> int {
    data[off] + data[off + 1] * 256
}

/// Reads a little-endian u16 from instruction data.
fn read_u16_le(data: &[u8], offset: usize) -> (r: u16)
    requires
        offset + 2 <= data@.len(),
    ensures
        r == le16(data@, offset as int),
{
    let lo = data[offset];
    let hi = data[offset + 1];
    lo as u16 + (hi as u16) * 256
}

/// The signature's byte offset within the verification instruction.
pub open spec fn sig_offset(data: Seq<u8>) -> int {
    le16(data, 2)
}

/// The public key's byte offset within the verification instruction.
pub open spec fn pk_offset(data: Seq<u8>) -> int {
    le16(data, 6)
}

/// The message's byte offset within the verification instruction.
pub open spec fn msg_offset(data: Seq<u8>) -> int {
    le16(data, 10)
}

/// The message's byte length within the verification instruction.
pub open spec fn msg_size(data: Seq<u8>) -> int {
    le16(data, 12)
}

/// The instruction encodes exactly one signature and a well-formed header.
pub open spec fn ed25519_header_ok(data: Seq<u8>) -> bool {
    &&& data.len() >= 16
    &&& data[0] == 1
}

/// All three data regions are embedded in this instruction itself
/// (instruction index `0xffff`), not referenced from another one.
pub open spec fn ed25519_embedded(data: Seq<u8>) -> bool {
    &&& le16(data, 4) == 0xffff
    &&& le16(data, 8) == 0xffff
    &&& le16(data, 14) == 0xffff
}

/// The public key bytes the host verified.
pub open spec fn ed25519_pubkey(data: Seq<u8>) -> Seq<u8> {
    data.subrange(pk_offset(data), pk_offset(data) + 32)
}

/// The message bytes the host verified.
pub open spec fn ed25519_message(data: Seq<u8>) -> Seq<u8> {
    data.subrange(msg_offset(data), msg_offset(data) + msg_size(data))
}

/// The exact outcome of checking a preceding verification instruction
/// with program address `program_id` and data `data` against an expected
/// public key and message: `None` means the check passes, otherwise the
/// specific error, in the order the checks are applied.
pub open spec fn ed25519_check(
    program_id: Seq<u8>,
    data: Seq<u8>,
    pk: Seq<u8>,
    msg: Seq<u8>,
) -> Option<WunderlandError> {
    if program_id != ed25519_program_id() {
        Some(WunderlandError::MissingEd25519Instruction)
    } else if !ed25519_header_ok(data) {
        Some(WunderlandError::InvalidEd25519Instruction)
    } else if !ed25519_embedded(data) {
        Some(WunderlandError::InvalidEd25519Instruction)
    } else if pk_offset(data) + 32 > data.len() {
        Some(WunderlandError::InvalidEd25519Instruction)
    } else if ed25519_pubkey(data) != pk {
        Some(WunderlandError::SignaturePublicKeyMismatch)
    } else if msg_offset(data) + msg_size(data) > data.len() {
        Some(WunderlandError::InvalidEd25519Instruction)
    } else if ed25519_message(data) != msg {
        Some(WunderlandError::SignatureMessageMismatch)
    } else if sig_offset(data) + 64 > data.len() {
        Some(WunderlandError::InvalidEd25519Instruction)
    } else {
        None
    }
}

/// The overall outcome of the preceding-instruction signature check:
/// `None` when a preceding instruction exists and vouches for exactly the
/// expected public key and message, otherwise the specific error.
pub open spec fn sig_check_outcome(
    preceding: Option<&InstructionData>,
    pk: Seq<u8>,
    msg: Seq<u8>,
) -> Option<WunderlandError> {
    match preceding {
        Option::None => Some(WunderlandError::MissingEd25519Instruction),
        Option::Some(ix) => ed25519_check(ix.program_id@, ix.data@, pk, msg),
    }
}

/// Byte-for-byte slice equality.
fn bytes_eq(a: &[u8], b: &[u8]) -> (r: bool)
    ensures
        r == (a@ == b@),
{
    if a.len() != b.len() {
        return false;
    }
    let mut i: usize = 0;
    while i < a.len()
        invariant
            0 <= i <= a@.len(),
            a@.len() == b@.len(),
            forall|j: int| 0 <= j < i ==> a@[j] == b@[j],
        decreases a@.len() - i,
    {
        if a[i] != b[i] {
            proof {
                assert(a@[i as int] != b@[i as int]);
            }
            return false;
        }
        i = i + 1;
    }
    proof {
        assert(a@ =~= b@);
    }
    true
}

/// Confirms that the instruction immediately preceding the current one is
/// a host ed25519 signature verification whose embedded public key equals
/// `expected_pubkey` and whose embedded message equals `expected_message`
/// byte for byte.
///
/// `preceding` is that instruction as plain data, or `None` when the
/// current instruction is the transaction's first.  Signature correctness
/// itself is the host's concern: the transaction never executes if the
/// verification instruction's signature is invalid, so this check only
/// ties the verified content to the action being authorized.
pub fn require_ed25519_signature_preceding_instruction(
    preceding: Option<&InstructionData>,
    expected_pubkey: &Address,
    expected_message: &Vec<u8>,
) -> (r: Result<(), WunderlandError>)
    ensures
        match r {
            Ok(()) => sig_check_outcome(preceding, expected_pubkey@, expected_message@) is None,
            Err(e) => Some(e) == sig_check_outcome(preceding, expected_pubkey@, expected_message@),
        },
{
    let ix = match preceding {
        None => {
            return Err(WunderlandError::MissingEd25519Instruction);
        },
        Some(ix) => ix,
    };
    let ed25519_id = ed25519_program_address();
    if !crate::addr::addr_eq(&ix.program_id, &ed25519_id) {
        return Err(WunderlandError::MissingEd25519Instruction);
    }
    let data = ix.data.as_slice();
    if data.len() < 16 {
        return Err(WunderlandError::InvalidEd25519Instruction);
    }
    if data[0] != 1 {
        return Err(WunderlandError::InvalidEd25519Instruction);
    }
    let signature_offset = read_u16_le(data, 2);
    let signature_ix_index = read_u16_le(data, 4);
    let public_key_offset = read_u16_le(data, 6);
    let public_key_ix_index = read_u16_le(data, 8);
    let message_data_offset = read_u16_le(data, 10);
    let message_data_size = read_u16_le(data, 12);
    let message_ix_index = read_u16_le(data, 14);
    if !(signature_ix_index == 0xffff && public_key_ix_index == 0xffff && message_ix_index
        == 0xffff) {
        return Err(WunderlandError::InvalidEd25519Instruction);
    }
    let pk_end = public_key_offset as usize + 32;
    if pk_end > data.len() {
        return Err(WunderlandError::InvalidEd25519Instruction);
    }
    let pk_bytes = vstd::slice::slice_subrange(data, public_key_offset as usize, pk_end);
    if !bytes_eq(pk_bytes, expected_pubkey.as_slice()) {
        return Err(WunderlandError::SignaturePublicKeyMismatch);
    }
    let msg_end = message_data_offset as usize + message_data_size as usize;
    if msg_end > data.len() {
        return Err(WunderlandError::InvalidEd25519Instruction);
    }
    let msg_bytes = vstd::slice::slice_subrange(data, message_data_offset as usize, msg_end);
    if !bytes_eq(msg_bytes, expected_message.as_slice()) {
        return Err(WunderlandError::SignatureMessageMismatch);
    }
    let sig_end = signature_offset as usize + 64;
    if sig_end > data.len() {
        return Err(WunderlandError::InvalidEd25519Instruction);
    }
    Ok(())
}

} // verus!
