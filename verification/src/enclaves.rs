//! Enclave creation and its treasury.
//!
//! An enclave is a topic space created by an agent (signature-verified);
//! its treasury receives the enclave share of enclave-targeted tips and
//! funds that enclave's reward epochs.

use vstd::prelude::*;

use crate::addr::{is_zero_addr, push_bytes, zero_addr, Address};
use crate::auth::{
    agent_message, build_agent_message, require_ed25519_signature_preceding_instruction,
    sig_check_outcome, InstructionData, ACTION_CREATE_ENCLAVE,
};
use crate::errors::WunderlandError;
use crate::state::{AgentIdentity, Enclave, EnclaveTreasury, ProgramConfig, Wallet};

verus! {

/// The payload an agent signs when creating an enclave:
/// `name hash || metadata hash`.
pub open spec fn create_enclave_payload(name_hash: Seq<u8>, metadata_hash: Seq<u8>) -> Seq<u8> {
    name_hash + metadata_hash
}

/// The exact outcome of an enclave creation's checks, given the outcome
/// `sig` of the delegated-signature check.
pub open spec fn create_enclave_error(
    config: ProgramConfig,
    creator_agent: AgentIdentity,
    name_hash: [u8; 32],
    sig: Option<WunderlandError>,
) -> Option<WunderlandError> {
    if !creator_agent.is_active {
        Some(WunderlandError::AgentInactive)
    } else if name_hash@ == zero_addr() {
        Some(WunderlandError::EmptyEnclaveNameHash)
    } else if sig is Some {
        sig
    } else if config.enclave_count + 1 > u32::MAX {
        Some(WunderlandError::ArithmeticOverflow)
    } else {
        None
    }
}

/// Creates an enclave and its treasury, authorized by the creating
/// agent's signer.  The enclave's controlling owner is the agent's owner
/// wallet; the payer funds the treasury's minimum reserve.  On failure
/// nothing is mutated.
pub fn create_enclave(
    config: &mut ProgramConfig,
    creator_agent: &AgentIdentity,
    payer: &mut Wallet,
    preceding: Option<&InstructionData>,
    program_id: &Address,
    name_hash: [u8; 32],
    metadata_hash: [u8; 32],
    now: i64,
    enclave_address: Address,
    treasury_min_reserve: u64,
) -> (r: Result<(Enclave, EnclaveTreasury), WunderlandError>)
    requires
        old(payer).lamports >= treasury_min_reserve,
    ensures
        match r {
            Ok((enclave, treasury)) => {
                let sig = sig_check_outcome(
                    preceding,
                    creator_agent.agent_signer@,
                    agent_message(
                        ACTION_CREATE_ENCLAVE,
                        program_id@,
                        creator_agent.address@,
                        create_enclave_payload(name_hash@, metadata_hash@),
                    ),
                );
                &&& create_enclave_error(*old(config), *creator_agent, name_hash, sig) is None
                &&& enclave.address == enclave_address
                &&& enclave.name_hash == name_hash
                &&& enclave.creator_agent == creator_agent.address
                &&& enclave.creator_owner == creator_agent.owner
                &&& enclave.metadata_hash == metadata_hash
                &&& enclave.created_at == now
                &&& enclave.is_active
                &&& treasury.enclave == enclave_address
                &&& treasury.lamports == treasury_min_reserve
                &&& *final(config) == (ProgramConfig {
                    enclave_count: (old(config).enclave_count + 1) as u32,
                    ..*old(config)
                })
                &&& *final(payer) == (Wallet {
                    lamports: (old(payer).lamports - treasury_min_reserve) as u64,
                    ..*old(payer)
                })
            },
            Err(e) => {
                let sig = sig_check_outcome(
                    preceding,
                    creator_agent.agent_signer@,
                    agent_message(
                        ACTION_CREATE_ENCLAVE,
                        program_id@,
                        creator_agent.address@,
                        create_enclave_payload(name_hash@, metadata_hash@),
                    ),
                );
                &&& Some(e) == create_enclave_error(*old(config), *creator_agent, name_hash, sig)
                &&& *final(config) == *old(config)
                &&& *final(payer) == *old(payer)
            },
        },
{
    if !creator_agent.is_active {
        return Err(WunderlandError::AgentInactive);
    }
    if is_zero_addr(&name_hash) {
        return Err(WunderlandError::EmptyEnclaveNameHash);
    }
    let mut payload: Vec<u8> = Vec::new();
    push_bytes(&mut payload, name_hash.as_slice());
    push_bytes(&mut payload, metadata_hash.as_slice());
    proof {
        assert(payload@ =~= create_enclave_payload(name_hash@, metadata_hash@));
    }
    let expected_message = build_agent_message(
        ACTION_CREATE_ENCLAVE,
        program_id,
        &creator_agent.address,
        &payload,
    );
    match require_ed25519_signature_preceding_instruction(
        preceding,
        &creator_agent.agent_signer,
        &expected_message,
    ) {
        Ok(()) => (),
        Err(e) => {
            return Err(e);
        },
    }
    let new_enclave_count = match config.enclave_count.checked_add(1) {
        Some(v) => v,
        None => {
            return Err(WunderlandError::ArithmeticOverflow);
        },
    };
    let enclave = Enclave {
        address: enclave_address,
        name_hash,
        creator_agent: creator_agent.address,
        creator_owner: creator_agent.owner,
        metadata_hash,
        created_at: now,
        is_active: true,
    };
    let treasury = EnclaveTreasury { enclave: enclave_address, lamports: treasury_min_reserve };
    config.enclave_count = new_enclave_count;
    payer.lamports = payer.lamports - treasury_min_reserve;
    Ok((enclave, treasury))
}

/// Initializes a treasury for an existing enclave that lacks one.
/// Permissionless; the payer funds the treasury's minimum reserve.  On
/// failure nothing is mutated.
pub fn initialize_enclave_treasury(
    enclave: &Enclave,
    payer: &mut Wallet,
    treasury_min_reserve: u64,
) -> (r: Result<EnclaveTreasury, WunderlandError>)
    requires
        old(payer).lamports >= treasury_min_reserve,
    ensures
        match r {
            Ok(treasury) => {
                &&& enclave.is_active
                &&& treasury.enclave == enclave.address
                &&& treasury.lamports == treasury_min_reserve
                &&& *final(payer) == (Wallet {
                    lamports: (old(payer).lamports - treasury_min_reserve) as u64,
                    ..*old(payer)
                })
            },
            Err(e) => {
                &&& e == WunderlandError::EnclaveInactive
                &&& !enclave.is_active
                &&& *final(payer) == *old(payer)
            },
        },
{
    if !enclave.is_active {
        return Err(WunderlandError::EnclaveInactive);
    }
    let treasury = EnclaveTreasury { enclave: enclave.address, lamports: treasury_min_reserve };
    payer.lamports = payer.lamports - treasury_min_reserve;
    Ok(treasury)
}

} // verus!
