//! Agent identity lifecycle and delegated-key management.
//!
//! An agent's owner wallet controls funds; a distinct signer key authors
//! actions.  Registration is permissionless behind a flat fee and a
//! lifetime per-wallet cap; the signer rotates under its own authority,
//! and a lost signer is replaced through an owner-initiated, timelocked
//! recovery request of which at most one is live per agent.

use vstd::prelude::*;

use crate::addr::{addr_eq, is_zero_addr, push_bytes, zero_addr, Address};
use crate::auth::{
    agent_message, build_agent_message, require_ed25519_signature_preceding_instruction,
    sig_check_outcome, InstructionData, ACTION_ROTATE_AGENT_SIGNER,
};
use crate::errors::WunderlandError;
use crate::state::{
    AgentIdentity, AgentSignerRecovery, AgentVault, EconomicsConfig, GlobalTreasury,
    OwnerAgentCounter, ProgramConfig, Wallet,
};

verus! {

/// Initializes the program configuration and the global treasury, both
/// governed by `admin_authority`.
pub fn initialize_config(admin_authority: Address, treasury_lamports: u64) -> (r: (
    ProgramConfig,
    GlobalTreasury,
))
    ensures
        r.0.authority == admin_authority,
        r.0.agent_count == 0,
        r.0.enclave_count == 0,
        r.1.authority == admin_authority,
        r.1.total_collected == 0,
        r.1.lamports == treasury_lamports,
{
    let config = ProgramConfig { authority: admin_authority, agent_count: 0, enclave_count: 0 };
    let treasury = GlobalTreasury {
        authority: admin_authority,
        total_collected: 0,
        lamports: treasury_lamports,
    };
    (config, treasury)
}

/// Default flat agent registration fee (lamports).
pub const DEFAULT_AGENT_MINT_FEE: u64 = 50_000_000;

/// Default lifetime cap on agents per owner wallet.
pub const DEFAULT_MAX_AGENTS_PER_WALLET: u16 = 5;

/// Default owner-recovery timelock (seconds).
pub const DEFAULT_RECOVERY_TIMELOCK_SECONDS: i64 = 300;

/// Initializes the economics configuration with its default policy
/// values, governed by the config's authority.
pub fn initialize_economics(config: &ProgramConfig) -> (r: EconomicsConfig)
    ensures
        r.authority == config.authority,
        r.agent_mint_fee_lamports == DEFAULT_AGENT_MINT_FEE,
        r.max_agents_per_wallet == DEFAULT_MAX_AGENTS_PER_WALLET,
        r.recovery_timelock_seconds == DEFAULT_RECOVERY_TIMELOCK_SECONDS,
{
    EconomicsConfig {
        authority: config.authority,
        agent_mint_fee_lamports: DEFAULT_AGENT_MINT_FEE,
        max_agents_per_wallet: DEFAULT_MAX_AGENTS_PER_WALLET,
        recovery_timelock_seconds: DEFAULT_RECOVERY_TIMELOCK_SECONDS,
    }
}

/// The exact outcome of an economics update's checks.
pub open spec fn update_economics_error(
    config: ProgramConfig,
    authority: Address,
    agent_mint_fee_lamports: u64,
    max_agents_per_wallet: u16,
    recovery_timelock_seconds: i64,
) -> Option<WunderlandError> {
    if authority@ != config.authority@ {
        Some(WunderlandError::UnauthorizedAuthority)
    } else if agent_mint_fee_lamports == 0 {
        Some(WunderlandError::InvalidAmount)
    } else if max_agents_per_wallet == 0 {
        Some(WunderlandError::InvalidAmount)
    } else if recovery_timelock_seconds < 0 {
        Some(WunderlandError::InvalidAmount)
    } else {
        None
    }
}

/// Updates the economics policy values.  Authority-only; every value must
/// stay in its sane range.  On failure nothing is mutated.
pub fn update_economics(
    config: &ProgramConfig,
    authority: &Address,
    economics: &mut EconomicsConfig,
    agent_mint_fee_lamports: u64,
    max_agents_per_wallet: u16,
    recovery_timelock_seconds: i64,
) -> (r: Result<(), WunderlandError>)
    ensures
        match r {
            Ok(()) => {
                &&& update_economics_error(
                    *config,
                    *authority,
                    agent_mint_fee_lamports,
                    max_agents_per_wallet,
                    recovery_timelock_seconds,
                ) is None
                &&& *final(economics) == (EconomicsConfig {
                    agent_mint_fee_lamports,
                    max_agents_per_wallet,
                    recovery_timelock_seconds,
                    ..*old(economics)
                })
            },
            Err(e) => {
                &&& Some(e) == update_economics_error(
                    *config,
                    *authority,
                    agent_mint_fee_lamports,
                    max_agents_per_wallet,
                    recovery_timelock_seconds,
                )
                &&& *final(economics) == *old(economics)
            },
        },
{
    if !addr_eq(authority, &config.authority) {
        return Err(WunderlandError::UnauthorizedAuthority);
    }
    if agent_mint_fee_lamports == 0 {
        return Err(WunderlandError::InvalidAmount);
    }
    if max_agents_per_wallet == 0 {
        return Err(WunderlandError::InvalidAmount);
    }
    if recovery_timelock_seconds < 0 {
        return Err(WunderlandError::InvalidAmount);
    }
    economics.agent_mint_fee_lamports = agent_mint_fee_lamports;
    economics.max_agents_per_wallet = max_agents_per_wallet;
    economics.recovery_timelock_seconds = recovery_timelock_seconds;
    Ok(())
}

/// All personality trait values sit in `0..=1000`.
pub open spec fn traits_in_range(hexaco_traits: [u16; 6]) -> bool {
    forall|i: int| 0 <= i < 6 ==> hexaco_traits@[i] <= 1000
}

/// The exact outcome of an agent registration's checks.
pub open spec fn initialize_agent_error(
    config: ProgramConfig,
    treasury: GlobalTreasury,
    economics: EconomicsConfig,
    owner_counter: OwnerAgentCounter,
    owner: Wallet,
    display_name: [u8; 32],
    hexaco_traits: [u16; 6],
    agent_signer: Address,
) -> Option<WunderlandError> {
    let fee = economics.agent_mint_fee_lamports;
    if economics.authority@ != config.authority@ {
        Some(WunderlandError::UnauthorizedAuthority)
    } else if display_name@ == zero_addr() {
        Some(WunderlandError::EmptyDisplayName)
    } else if !traits_in_range(hexaco_traits) {
        Some(WunderlandError::InvalidTraitValue)
    } else if agent_signer@ == owner.address@ {
        Some(WunderlandError::AgentSignerEqualsOwner)
    } else if (if owner_counter.owner@ == zero_addr() {
        0int
    } else {
        owner_counter.minted_count as int
    }) >= economics.max_agents_per_wallet {
        Some(WunderlandError::MaxAgentsPerWalletExceeded)
    } else if fee == 0 {
        Some(WunderlandError::InvalidAmount)
    } else if treasury.total_collected + fee > u64::MAX {
        Some(WunderlandError::ArithmeticOverflow)
    } else if config.agent_count + 1 > u32::MAX {
        Some(WunderlandError::ArithmeticOverflow)
    } else {
        None
    }
}

/// Registers a new agent: charges the flat registration fee into the
/// global treasury, enforces the lifetime per-wallet cap, and creates the
/// identity (with its signer distinct from the owner) and its empty
/// vault.  The owner also pays the new accounts' minimum reserves.  On
/// failure nothing is mutated.
#[verifier::loop_isolation(false)]
pub fn initialize_agent(
    config: &mut ProgramConfig,
    treasury: &mut GlobalTreasury,
    economics: &EconomicsConfig,
    owner_counter: &mut OwnerAgentCounter,
    owner: &mut Wallet,
    agent_id: [u8; 32],
    display_name: [u8; 32],
    hexaco_traits: [u16; 6],
    metadata_hash: [u8; 32],
    agent_signer: Address,
    now: i64,
    agent_address: Address,
    vault_address: Address,
    vault_min_reserve: u64,
) -> (r: Result<(AgentIdentity, AgentVault), WunderlandError>)
    requires
        old(owner_counter).owner@ == zero_addr() || old(owner_counter).owner@ == old(
            owner,
        ).address@,
        old(owner).lamports >= economics.agent_mint_fee_lamports + vault_min_reserve,
        old(treasury).lamports + economics.agent_mint_fee_lamports <= u64::MAX,
    ensures
        match r {
            Ok((agent, vault)) => {
                let fee = economics.agent_mint_fee_lamports;
                &&& initialize_agent_error(
                    *old(config),
                    *old(treasury),
                    *economics,
                    *old(owner_counter),
                    *old(owner),
                    display_name,
                    hexaco_traits,
                    agent_signer,
                ) is None
                &&& agent.address == agent_address
                &&& agent.owner == old(owner).address
                &&& agent.agent_id == agent_id
                &&& agent.agent_signer == agent_signer
                &&& agent.display_name == display_name
                &&& agent.hexaco_traits == hexaco_traits
                &&& agent.citizen_level == 1
                &&& agent.xp == 0
                &&& agent.total_entries == 0
                &&& agent.reputation_score == 0
                &&& agent.metadata_hash == metadata_hash
                &&& agent.created_at == now
                &&& agent.updated_at == now
                &&& agent.is_active
                &&& agent.wf()
                &&& vault.address == vault_address
                &&& vault.agent == agent_address
                &&& vault.lamports == vault_min_reserve
                &&& *final(config) == (ProgramConfig {
                    agent_count: (old(config).agent_count + 1) as u32,
                    ..*old(config)
                })
                &&& *final(treasury) == (GlobalTreasury {
                    total_collected: (old(treasury).total_collected + fee) as u64,
                    lamports: (old(treasury).lamports + fee) as u64,
                    ..*old(treasury)
                })
                &&& final(owner_counter).owner == old(owner).address
                &&& final(owner_counter).minted_count == (if old(owner_counter).owner@
                    == zero_addr() {
                    1int
                } else {
                    old(owner_counter).minted_count + 1
                })
                &&& *final(owner) == (Wallet {
                    lamports: (old(owner).lamports - fee - vault_min_reserve) as u64,
                    ..*old(owner)
                })
            },
            Err(e) => {
                &&& Some(e) == initialize_agent_error(
                    *old(config),
                    *old(treasury),
                    *economics,
                    *old(owner_counter),
                    *old(owner),
                    display_name,
                    hexaco_traits,
                    agent_signer,
                )
                &&& *final(config) == *old(config)
                &&& *final(treasury) == *old(treasury)
                &&& *final(owner_counter) == *old(owner_counter)
                &&& *final(owner) == *old(owner)
            },
        },
{
    if !addr_eq(&economics.authority, &config.authority) {
        return Err(WunderlandError::UnauthorizedAuthority);
    }
    if is_zero_addr(&display_name) {
        return Err(WunderlandError::EmptyDisplayName);
    }
    let mut i: usize = 0;
    while i < 6
        invariant
            0 <= i <= 6,
            forall|j: int| 0 <= j < i ==> hexaco_traits@[j] <= 1000,
        decreases 6 - i,
    {
        if hexaco_traits[i] > 1000 {
            proof {
                assert(hexaco_traits@[i as int] > 1000);
                assert(!traits_in_range(hexaco_traits));
            }
            return Err(WunderlandError::InvalidTraitValue);
        }
        i = i + 1;
    }
    if addr_eq(&agent_signer, &owner.address) {
        return Err(WunderlandError::AgentSignerEqualsOwner);
    }
    let mut counter = *owner_counter;
    if is_zero_addr(&counter.owner) {
        counter = OwnerAgentCounter { owner: owner.address, minted_count: 0 };
    }
    if counter.minted_count >= economics.max_agents_per_wallet {
        return Err(WunderlandError::MaxAgentsPerWalletExceeded);
    }
    let fee = economics.agent_mint_fee_lamports;
    if fee == 0 {
        return Err(WunderlandError::InvalidAmount);
    }
    let new_collected = match treasury.total_collected.checked_add(fee) {
        Some(v) => v,
        None => {
            return Err(WunderlandError::ArithmeticOverflow);
        },
    };
    let new_agent_count = match config.agent_count.checked_add(1) {
        Some(v) => v,
        None => {
            return Err(WunderlandError::ArithmeticOverflow);
        },
    };
    let agent = AgentIdentity {
        address: agent_address,
        owner: owner.address,
        agent_id,
        agent_signer,
        display_name,
        hexaco_traits,
        citizen_level: 1,
        xp: 0,
        total_entries: 0,
        reputation_score: 0,
        metadata_hash,
        created_at: now,
        updated_at: now,
        is_active: true,
    };
    let vault = AgentVault {
        address: vault_address,
        agent: agent_address,
        lamports: vault_min_reserve,
    };
    counter.minted_count = counter.minted_count + 1;
    owner.lamports = owner.lamports - fee - vault_min_reserve;
    treasury.lamports = treasury.lamports + fee;
    treasury.total_collected = new_collected;
    config.agent_count = new_agent_count;
    *owner_counter = counter;
    Ok((agent, vault))
}

/// The exact outcome of a deactivation's checks.
pub open spec fn deactivate_agent_error(
    agent: AgentIdentity,
    owner: Address,
) -> Option<WunderlandError> {
    if owner@ != agent.owner@ {
        Some(WunderlandError::UnauthorizedOwner)
    } else if !agent.is_active {
        Some(WunderlandError::AgentAlreadyInactive)
    } else {
        None
    }
}

/// Deactivates an agent.  Owner-only safety valve.  On failure nothing is
/// mutated.
pub fn deactivate_agent(agent: &mut AgentIdentity, owner: &Address, now: i64) -> (r: Result<
    (),
    WunderlandError,
>)
    ensures
        match r {
            Ok(()) => {
                &&& deactivate_agent_error(*old(agent), *owner) is None
                &&& *final(agent) == (AgentIdentity {
                    is_active: false,
                    updated_at: now,
                    ..*old(agent)
                })
            },
            Err(e) => {
                &&& Some(e) == deactivate_agent_error(*old(agent), *owner)
                &&& *final(agent) == *old(agent)
            },
        },
{
    if !addr_eq(owner, &agent.owner) {
        return Err(WunderlandError::UnauthorizedOwner);
    }
    if !agent.is_active {
        return Err(WunderlandError::AgentAlreadyInactive);
    }
    agent.is_active = false;
    agent.updated_at = now;
    Ok(())
}

/// The exact outcome of a reactivation's checks.
pub open spec fn reactivate_agent_error(
    agent: AgentIdentity,
    owner: Address,
) -> Option<WunderlandError> {
    if owner@ != agent.owner@ {
        Some(WunderlandError::UnauthorizedOwner)
    } else if agent.is_active {
        Some(WunderlandError::AgentAlreadyActive)
    } else {
        None
    }
}

/// Reactivates a deactivated agent.  Owner-only.  On failure nothing is
/// mutated.
pub fn reactivate_agent(agent: &mut AgentIdentity, owner: &Address, now: i64) -> (r: Result<
    (),
    WunderlandError,
>)
    ensures
        match r {
            Ok(()) => {
                &&& reactivate_agent_error(*old(agent), *owner) is None
                &&& *final(agent) == (AgentIdentity {
                    is_active: true,
                    updated_at: now,
                    ..*old(agent)
                })
            },
            Err(e) => {
                &&& Some(e) == reactivate_agent_error(*old(agent), *owner)
                &&& *final(agent) == *old(agent)
            },
        },
{
    if !addr_eq(owner, &agent.owner) {
        return Err(WunderlandError::UnauthorizedOwner);
    }
    if agent.is_active {
        return Err(WunderlandError::AgentAlreadyActive);
    }
    agent.is_active = true;
    agent.updated_at = now;
    Ok(())
}

/// The payload the current signer signs to rotate to a new signer key:
/// the new key's bytes.
pub open spec fn rotate_signer_payload(new_agent_signer: Seq<u8>) -> Seq<u8> {
    new_agent_signer
}

/// The exact outcome of a signer rotation's checks, given the outcome
/// `sig` of the delegated-signature check by the current signer.
pub open spec fn rotate_agent_signer_error(
    agent: AgentIdentity,
    new_agent_signer: Address,
    sig: Option<WunderlandError>,
) -> Option<WunderlandError> {
    if new_agent_signer@ == agent.owner@ {
        Some(WunderlandError::AgentSignerEqualsOwner)
    } else {
        sig
    }
}

/// Rotates the agent's signer key, authorized by the *current* signer —
/// never by the owner wallet, so a hijacked owner cannot seize authorship.
/// The new key must differ from the owner.  On failure nothing is mutated.
pub fn rotate_agent_signer(
    agent: &mut AgentIdentity,
    preceding: Option<&InstructionData>,
    program_id: &Address,
    new_agent_signer: Address,
    now: i64,
) -> (r: Result<(), WunderlandError>)
    ensures
        match r {
            Ok(()) => {
                let sig = sig_check_outcome(
                    preceding,
                    old(agent).agent_signer@,
                    agent_message(
                        ACTION_ROTATE_AGENT_SIGNER,
                        program_id@,
                        old(agent).address@,
                        rotate_signer_payload(new_agent_signer@),
                    ),
                );
                &&& rotate_agent_signer_error(*old(agent), new_agent_signer, sig) is None
                &&& *final(agent) == (AgentIdentity {
                    agent_signer: new_agent_signer,
                    updated_at: now,
                    ..*old(agent)
                })
                &&& final(agent).wf()
            },
            Err(e) => {
                let sig = sig_check_outcome(
                    preceding,
                    old(agent).agent_signer@,
                    agent_message(
                        ACTION_ROTATE_AGENT_SIGNER,
                        program_id@,
                        old(agent).address@,
                        rotate_signer_payload(new_agent_signer@),
                    ),
                );
                &&& Some(e) == rotate_agent_signer_error(*old(agent), new_agent_signer, sig)
                &&& *final(agent) == *old(agent)
            },
        },
{
    if addr_eq(&new_agent_signer, &agent.owner) {
        return Err(WunderlandError::AgentSignerEqualsOwner);
    }
    let mut payload: Vec<u8> = Vec::new();
    push_bytes(&mut payload, new_agent_signer.as_slice());
    proof {
        assert(payload@ =~= rotate_signer_payload(new_agent_signer@));
    }
    let expected_message = build_agent_message(
        ACTION_ROTATE_AGENT_SIGNER,
        program_id,
        &agent.address,
        &payload,
    );
    match require_ed25519_signature_preceding_instruction(
        preceding,
        &agent.agent_signer,
        &expected_message,
    ) {
        Ok(()) => (),
        Err(e) => {
            return Err(e);
        },
    }
    agent.agent_signer = new_agent_signer;
    agent.updated_at = now;
    Ok(())
}

/// The exact outcome of a recovery request's checks.
pub open spec fn request_recovery_error(
    economics: EconomicsConfig,
    agent: AgentIdentity,
    owner: Address,
    pending: Option<AgentSignerRecovery>,
    new_agent_signer: Address,
    now: i64,
) -> Option<WunderlandError> {
    if owner@ != agent.owner@ {
        Some(WunderlandError::UnauthorizedOwner)
    } else if pending is Some {
        Some(WunderlandError::RecoveryAlreadyPending)
    } else if new_agent_signer@ == owner@ {
        Some(WunderlandError::AgentSignerEqualsOwner)
    } else if new_agent_signer@ == agent.agent_signer@ {
        Some(WunderlandError::RecoveryNoOp)
    } else if economics.recovery_timelock_seconds < 0 {
        Some(WunderlandError::InvalidAmount)
    } else if now + economics.recovery_timelock_seconds > i64::MAX {
        Some(WunderlandError::ArithmeticOverflow)
    } else {
        None
    }
}

/// Requests an owner-based signer recovery.  The request becomes
/// executable exactly one timelock after its creation, and at most one
/// request is live per agent: a new one is refused while one is pending.
/// On failure nothing is mutated.
pub fn request_recover_agent_signer(
    economics: &EconomicsConfig,
    agent: &AgentIdentity,
    owner: &Address,
    recovery_slot: &mut Option<AgentSignerRecovery>,
    new_agent_signer: Address,
    now: i64,
) -> (r: Result<(), WunderlandError>)
    ensures
        match r {
            Ok(()) => {
                &&& request_recovery_error(
                    *economics,
                    *agent,
                    *owner,
                    *old(recovery_slot),
                    new_agent_signer,
                    now,
                ) is None
                &&& *final(recovery_slot) == Some(
                    AgentSignerRecovery {
                        agent: agent.address,
                        owner: agent.owner,
                        new_agent_signer,
                        requested_at: now,
                        ready_at: (now + economics.recovery_timelock_seconds) as i64,
                    },
                )
            },
            Err(e) => {
                &&& Some(e) == request_recovery_error(
                    *economics,
                    *agent,
                    *owner,
                    *old(recovery_slot),
                    new_agent_signer,
                    now,
                )
                &&& *final(recovery_slot) == *old(recovery_slot)
            },
        },
{
    if !addr_eq(owner, &agent.owner) {
        return Err(WunderlandError::UnauthorizedOwner);
    }
    if recovery_slot.is_some() {
        return Err(WunderlandError::RecoveryAlreadyPending);
    }
    if addr_eq(&new_agent_signer, owner) {
        return Err(WunderlandError::AgentSignerEqualsOwner);
    }
    if addr_eq(&new_agent_signer, &agent.agent_signer) {
        return Err(WunderlandError::RecoveryNoOp);
    }
    let timelock = economics.recovery_timelock_seconds;
    if timelock < 0 {
        return Err(WunderlandError::InvalidAmount);
    }
    let ready_at = match now.checked_add(timelock) {
        Some(v) => v,
        None => {
            return Err(WunderlandError::ArithmeticOverflow);
        },
    };
    *recovery_slot = Some(
        AgentSignerRecovery {
            agent: agent.address,
            owner: agent.owner,
            new_agent_signer,
            requested_at: now,
            ready_at,
        },
    );
    Ok(())
}

/// While one recovery request is outstanding for an agent, any further
/// request for that agent is refused, whatever its arguments.
pub proof fn lemma_single_pending_recovery(
    economics: EconomicsConfig,
    agent: AgentIdentity,
    pending: AgentSignerRecovery,
    new_agent_signer: Address,
    now: i64,
)
    ensures
        request_recovery_error(
            economics,
            agent,
            agent.owner,
            Some(pending),
            new_agent_signer,
            now,
        ) == Some(WunderlandError::RecoveryAlreadyPending),
{
}

/// The exact outcome of a recovery execution's checks: before `ready_at`
/// it fails `RecoveryNotReady`, at or after it the recovery applies.
pub open spec fn execute_recovery_error(
    agent: AgentIdentity,
    owner: Address,
    pending: Option<AgentSignerRecovery>,
    now: i64,
) -> Option<WunderlandError> {
    if owner@ != agent.owner@ {
        Some(WunderlandError::UnauthorizedOwner)
    } else if pending is None {
        Some(WunderlandError::NoPendingRecovery)
    } else if pending->Some_0.owner@ != owner@ {
        Some(WunderlandError::UnauthorizedOwner)
    } else if now < pending->Some_0.ready_at {
        Some(WunderlandError::RecoveryNotReady)
    } else {
        None
    }
}

/// Executes a pending signer recovery once its timelock has elapsed:
/// strictly before `ready_at` it fails `RecoveryNotReady`, at or after
/// `ready_at` it replaces the agent's signer and consumes the request.
/// Owner-only.  On failure nothing is mutated.
pub fn execute_recover_agent_signer(
    agent: &mut AgentIdentity,
    owner: &Address,
    recovery_slot: &mut Option<AgentSignerRecovery>,
    now: i64,
) -> (r: Result<(), WunderlandError>)
    requires
        match *old(recovery_slot) {
            Some(rec) => rec.agent@ == old(agent).address@ && rec.new_agent_signer@
                != rec.owner@,
            None => true,
        },
    ensures
        match r {
            Ok(()) => {
                &&& execute_recovery_error(*old(agent), *owner, *old(recovery_slot), now)
                    is None
                &&& *final(agent) == (AgentIdentity {
                    agent_signer: old(recovery_slot)->Some_0.new_agent_signer,
                    updated_at: now,
                    ..*old(agent)
                })
                &&& final(agent).wf()
                &&& *final(recovery_slot) == Option::<AgentSignerRecovery>::None
            },
            Err(e) => {
                &&& Some(e) == execute_recovery_error(*old(agent), *owner, *old(recovery_slot), now)
                &&& *final(agent) == *old(agent)
                &&& *final(recovery_slot) == *old(recovery_slot)
            },
        },
{
    if !addr_eq(owner, &agent.owner) {
        return Err(WunderlandError::UnauthorizedOwner);
    }
    let rec = match recovery_slot {
        Option::Some(rec) => *rec,
        Option::None => {
            return Err(WunderlandError::NoPendingRecovery);
        },
    };
    if !addr_eq(&rec.owner, owner) {
        return Err(WunderlandError::UnauthorizedOwner);
    }
    if now < rec.ready_at {
        return Err(WunderlandError::RecoveryNotReady);
    }
    agent.agent_signer = rec.new_agent_signer;
    agent.updated_at = now;
    *recovery_slot = Option::None;
    Ok(())
}

/// The exact outcome of a recovery cancellation's checks.
pub open spec fn cancel_recovery_error(
    agent: AgentIdentity,
    owner: Address,
    pending: Option<AgentSignerRecovery>,
) -> Option<WunderlandError> {
    if owner@ != agent.owner@ {
        Some(WunderlandError::UnauthorizedOwner)
    } else if pending is None {
        Some(WunderlandError::NoPendingRecovery)
    } else if pending->Some_0.owner@ != owner@ {
        Some(WunderlandError::UnauthorizedOwner)
    } else {
        None
    }
}

/// Cancels a pending signer recovery, consuming the request.  Owner-only.
/// On failure nothing is mutated.
pub fn cancel_recover_agent_signer(
    agent: &AgentIdentity,
    owner: &Address,
    recovery_slot: &mut Option<AgentSignerRecovery>,
) -> (r: Result<(), WunderlandError>)
    ensures
        match r {
            Ok(()) => {
                &&& cancel_recovery_error(*agent, *owner, *old(recovery_slot)) is None
                &&& *final(recovery_slot) == Option::<AgentSignerRecovery>::None
            },
            Err(e) => {
                &&& Some(e) == cancel_recovery_error(*agent, *owner, *old(recovery_slot))
                &&& *final(recovery_slot) == *old(recovery_slot)
            },
        },
{
    if !addr_eq(owner, &agent.owner) {
        return Err(WunderlandError::UnauthorizedOwner);
    }
    let rec_owner = match recovery_slot {
        Option::Some(rec) => rec.owner,
        Option::None => {
            return Err(WunderlandError::NoPendingRecovery);
        },
    };
    if !addr_eq(&rec_owner, owner) {
        return Err(WunderlandError::UnauthorizedOwner);
    }
    *recovery_slot = Option::None;
    Ok(())
}

} // verus!
