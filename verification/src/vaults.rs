//! Agent vaults and the global treasury's withdrawal path.
//!
//! A vault is a program-owned account: anyone may pay in (deposits,
//! donations, job payouts, reward claims), only the agent's owner wallet
//! may withdraw, and every withdrawal preserves the account's minimum
//! reserve.

use vstd::prelude::*;

use crate::addr::{addr_eq, Address};
use crate::errors::WunderlandError;
use crate::state::{
    AgentIdentity, AgentVault, DonationReceipt, GlobalTreasury, ProgramConfig, Wallet,
};

verus! {

/// The exact outcome of a vault deposit's checks.
pub open spec fn deposit_to_vault_error(lamports: u64) -> Option<WunderlandError> {
    if lamports == 0 {
        Some(WunderlandError::InvalidAmount)
    } else {
        None
    }
}

/// Deposits into an agent's vault.  Anyone may deposit.  On failure
/// nothing is mutated.
pub fn deposit_to_vault(
    agent: &AgentIdentity,
    vault: &mut AgentVault,
    depositor: &mut Wallet,
    lamports: u64,
) -> (r: Result<(), WunderlandError>)
    requires
        old(vault).agent@ == agent.address@,
        old(depositor).lamports >= lamports,
        old(vault).lamports + lamports <= u64::MAX,
    ensures
        match r {
            Ok(()) => {
                &&& deposit_to_vault_error(lamports) is None
                &&& *final(vault) == (AgentVault {
                    lamports: (old(vault).lamports + lamports) as u64,
                    ..*old(vault)
                })
                &&& *final(depositor) == (Wallet {
                    lamports: (old(depositor).lamports - lamports) as u64,
                    ..*old(depositor)
                })
            },
            Err(e) => {
                &&& Some(e) == deposit_to_vault_error(lamports)
                &&& *final(vault) == *old(vault)
                &&& *final(depositor) == *old(depositor)
            },
        },
{
    if lamports == 0 {
        return Err(WunderlandError::InvalidAmount);
    }
    depositor.lamports = depositor.lamports - lamports;
    vault.lamports = vault.lamports + lamports;
    Ok(())
}

/// The exact outcome of a vault withdrawal's checks: owner-only, a
/// positive amount, and the vault's minimum reserve preserved.
pub open spec fn withdraw_from_vault_error(
    agent: AgentIdentity,
    vault: AgentVault,
    owner: Wallet,
    lamports: u64,
    min_reserve: u64,
) -> Option<WunderlandError> {
    if owner.address@ != agent.owner@ {
        Some(WunderlandError::UnauthorizedAuthority)
    } else if lamports == 0 {
        Some(WunderlandError::InvalidAmount)
    } else if vault.lamports < min_reserve + lamports {
        Some(WunderlandError::InsufficientVaultBalance)
    } else if owner.lamports + lamports > u64::MAX {
        Some(WunderlandError::ArithmeticOverflow)
    } else {
        None
    }
}

/// Withdraws from an agent's vault to its owner wallet, keeping the
/// vault's minimum reserve intact.  Owner-only.  On failure nothing is
/// mutated.
pub fn withdraw_from_vault(
    agent: &AgentIdentity,
    vault: &mut AgentVault,
    owner: &mut Wallet,
    lamports: u64,
    min_reserve: u64,
) -> (r: Result<(), WunderlandError>)
    requires
        old(vault).agent@ == agent.address@,
    ensures
        match r {
            Ok(()) => {
                &&& withdraw_from_vault_error(
                    *agent,
                    *old(vault),
                    *old(owner),
                    lamports,
                    min_reserve,
                ) is None
                &&& *final(vault) == (AgentVault {
                    lamports: (old(vault).lamports - lamports) as u64,
                    ..*old(vault)
                })
                &&& final(vault).lamports >= min_reserve
                &&& *final(owner) == (Wallet {
                    lamports: (old(owner).lamports + lamports) as u64,
                    ..*old(owner)
                })
            },
            Err(e) => {
                &&& Some(e) == withdraw_from_vault_error(
                    *agent,
                    *old(vault),
                    *old(owner),
                    lamports,
                    min_reserve,
                )
                &&& *final(vault) == *old(vault)
                &&& *final(owner) == *old(owner)
            },
        },
{
    if !addr_eq(&owner.address, &agent.owner) {
        return Err(WunderlandError::UnauthorizedAuthority);
    }
    if lamports == 0 {
        return Err(WunderlandError::InvalidAmount);
    }
    if vault.lamports < min_reserve || vault.lamports - min_reserve < lamports {
        return Err(WunderlandError::InsufficientVaultBalance);
    }
    let new_owner_lamports = match owner.lamports.checked_add(lamports) {
        Some(v) => v,
        None => {
            return Err(WunderlandError::ArithmeticOverflow);
        },
    };
    vault.lamports = vault.lamports - lamports;
    owner.lamports = new_owner_lamports;
    Ok(())
}

/// The exact outcome of a donation's checks.
pub open spec fn donate_to_agent_error(
    agent: AgentIdentity,
    amount: u64,
) -> Option<WunderlandError> {
    if !agent.is_active {
        Some(WunderlandError::AgentInactive)
    } else if amount == 0 {
        Some(WunderlandError::InvalidAmount)
    } else {
        None
    }
}

/// Donates into an active agent's vault and records a receipt.  The vault
/// cannot initiate outgoing transfers, so donations only ever flow in.
/// On failure nothing is mutated.
pub fn donate_to_agent(
    donor: &mut Wallet,
    agent: &AgentIdentity,
    vault: &mut AgentVault,
    amount: u64,
    context_hash: [u8; 32],
    donation_nonce: u64,
    now: i64,
) -> (r: Result<DonationReceipt, WunderlandError>)
    requires
        old(vault).agent@ == agent.address@,
        old(donor).lamports >= amount,
        old(vault).lamports + amount <= u64::MAX,
    ensures
        match r {
            Ok(receipt) => {
                &&& donate_to_agent_error(*agent, amount) is None
                &&& receipt.donor == old(donor).address
                &&& receipt.agent == agent.address
                &&& receipt.vault == old(vault).address
                &&& receipt.context_hash == context_hash
                &&& receipt.amount == amount
                &&& receipt.donated_at == now
                &&& *final(vault) == (AgentVault {
                    lamports: (old(vault).lamports + amount) as u64,
                    ..*old(vault)
                })
                &&& *final(donor) == (Wallet {
                    lamports: (old(donor).lamports - amount) as u64,
                    ..*old(donor)
                })
            },
            Err(e) => {
                &&& Some(e) == donate_to_agent_error(*agent, amount)
                &&& *final(vault) == *old(vault)
                &&& *final(donor) == *old(donor)
            },
        },
{
    if !agent.is_active {
        return Err(WunderlandError::AgentInactive);
    }
    if amount == 0 {
        return Err(WunderlandError::InvalidAmount);
    }
    donor.lamports = donor.lamports - amount;
    vault.lamports = vault.lamports + amount;
    let receipt = DonationReceipt {
        donor: donor.address,
        agent: agent.address,
        vault: vault.address,
        context_hash,
        amount,
        donated_at: now,
    };
    Ok(receipt)
}

/// The exact outcome of a treasury withdrawal's checks: authority-only,
/// a positive amount, and the treasury's minimum reserve preserved.
pub open spec fn withdraw_treasury_error(
    config: ProgramConfig,
    treasury: GlobalTreasury,
    authority: Wallet,
    lamports: u64,
    min_reserve: u64,
) -> Option<WunderlandError> {
    if authority.address@ != config.authority@ {
        Some(WunderlandError::UnauthorizedAuthority)
    } else if lamports == 0 {
        Some(WunderlandError::InvalidAmount)
    } else if treasury.lamports < min_reserve + lamports {
        Some(WunderlandError::InsufficientTreasuryBalance)
    } else if authority.lamports + lamports > u64::MAX {
        Some(WunderlandError::ArithmeticOverflow)
    } else {
        None
    }
}

/// Withdraws from the global treasury to the authority wallet, keeping
/// the treasury's minimum reserve intact.  Authority-only.  On failure
/// nothing is mutated.
pub fn withdraw_treasury(
    config: &ProgramConfig,
    treasury: &mut GlobalTreasury,
    authority: &mut Wallet,
    lamports: u64,
    min_reserve: u64,
) -> (r: Result<(), WunderlandError>)
    requires
        old(treasury).authority@ == config.authority@,
    ensures
        match r {
            Ok(()) => {
                &&& withdraw_treasury_error(
                    *config,
                    *old(treasury),
                    *old(authority),
                    lamports,
                    min_reserve,
                ) is None
                &&& *final(treasury) == (GlobalTreasury {
                    lamports: (old(treasury).lamports - lamports) as u64,
                    ..*old(treasury)
                })
                &&& final(treasury).lamports >= min_reserve
                &&& *final(authority) == (Wallet {
                    lamports: (old(authority).lamports + lamports) as u64,
                    ..*old(authority)
                })
            },
            Err(e) => {
                &&& Some(e) == withdraw_treasury_error(
                    *config,
                    *old(treasury),
                    *old(authority),
                    lamports,
                    min_reserve,
                )
                &&& *final(treasury) == *old(treasury)
                &&& *final(authority) == *old(authority)
            },
        },
{
    if !addr_eq(&authority.address, &config.authority) {
        return Err(WunderlandError::UnauthorizedAuthority);
    }
    if lamports == 0 {
        return Err(WunderlandError::InvalidAmount);
    }
    if treasury.lamports < min_reserve || treasury.lamports - min_reserve < lamports {
        return Err(WunderlandError::InsufficientTreasuryBalance);
    }
    let new_authority_lamports = match authority.lamports.checked_add(lamports) {
        Some(v) => v,
        None => {
            return Err(WunderlandError::ArithmeticOverflow);
        },
    };
    treasury.lamports = treasury.lamports - lamports;
    authority.lamports = new_authority_lamports;
    Ok(())
}

} // verus!
