//! Vault and treasury tests: deposits, owner-only withdrawals with the
//! reserve preserved, donations, and treasury withdrawal.

use wunderland_sol::errors::WunderlandError;
use wunderland_sol::state::{AgentIdentity, AgentVault, GlobalTreasury, ProgramConfig, Wallet};
use wunderland_sol::vaults::{
    deposit_to_vault, donate_to_agent, withdraw_from_vault, withdraw_treasury,
};

fn addr(tag: u8) -> [u8; 32] {
    let mut a = [0u8; 32];
    a[0] = tag;
    a
}

fn agent() -> AgentIdentity {
    AgentIdentity {
        address: addr(2),
        owner: addr(1),
        agent_id: addr(99),
        agent_signer: addr(3),
        display_name: addr(77),
        hexaco_traits: [500u16; 6],
        citizen_level: 1,
        xp: 0,
        total_entries: 0,
        reputation_score: 0,
        metadata_hash: addr(88),
        created_at: 0,
        updated_at: 0,
        is_active: true,
    }
}

const RESERVE: u64 = 1_000_000;

#[test]
fn deposit_moves_funds_into_the_vault() {
    let a = agent();
    let mut vault = AgentVault { address: addr(4), agent: addr(2), lamports: RESERVE };
    let mut depositor = Wallet { address: addr(5), lamports: 10_000_000 };
    deposit_to_vault(&a, &mut vault, &mut depositor, 3_000_000).unwrap();
    assert_eq!(vault.lamports, RESERVE + 3_000_000);
    assert_eq!(depositor.lamports, 7_000_000);
    let r = deposit_to_vault(&a, &mut vault, &mut depositor, 0);
    assert_eq!(r.unwrap_err(), WunderlandError::InvalidAmount);
}

#[test]
fn withdrawal_is_owner_only_and_keeps_the_reserve() {
    let a = agent();
    let mut vault = AgentVault { address: addr(4), agent: addr(2), lamports: RESERVE + 5_000_000 };
    let mut stranger = Wallet { address: addr(9), lamports: 0 };
    let r = withdraw_from_vault(&a, &mut vault, &mut stranger, 1_000_000, RESERVE);
    assert_eq!(r.unwrap_err(), WunderlandError::UnauthorizedAuthority);

    let mut owner = Wallet { address: addr(1), lamports: 0 };
    // More than the balance above the reserve: refused.
    let r = withdraw_from_vault(&a, &mut vault, &mut owner, 5_000_001, RESERVE);
    assert_eq!(r.unwrap_err(), WunderlandError::InsufficientVaultBalance);
    // Exactly the balance above the reserve: fine.
    withdraw_from_vault(&a, &mut vault, &mut owner, 5_000_000, RESERVE).unwrap();
    assert_eq!(vault.lamports, RESERVE);
    assert_eq!(owner.lamports, 5_000_000);
}

#[test]
fn donation_records_a_receipt_and_needs_an_active_agent() {
    let mut a = agent();
    let mut vault = AgentVault { address: addr(4), agent: addr(2), lamports: RESERVE };
    let mut donor = Wallet { address: addr(7), lamports: 2_000_000 };
    let receipt = donate_to_agent(&mut donor, &a, &mut vault, 1_500_000, addr(33), 1, 4_000)
        .unwrap();
    assert_eq!(receipt.donor, addr(7));
    assert_eq!(receipt.agent, addr(2));
    assert_eq!(receipt.vault, addr(4));
    assert_eq!(receipt.amount, 1_500_000);
    assert_eq!(receipt.donated_at, 4_000);
    assert_eq!(vault.lamports, RESERVE + 1_500_000);
    assert_eq!(donor.lamports, 500_000);

    a.is_active = false;
    let r = donate_to_agent(&mut donor, &a, &mut vault, 100, addr(33), 2, 4_100);
    assert_eq!(r.unwrap_err(), WunderlandError::AgentInactive);
}

#[test]
fn treasury_withdrawal_is_authority_only_and_keeps_the_reserve() {
    let config = ProgramConfig { authority: addr(9), agent_count: 0, enclave_count: 0 };
    let mut treasury = GlobalTreasury {
        authority: addr(9),
        total_collected: 10_000_000,
        lamports: RESERVE + 10_000_000,
    };
    let mut stranger = Wallet { address: addr(8), lamports: 0 };
    let r = withdraw_treasury(&config, &mut treasury, &mut stranger, 1, RESERVE);
    assert_eq!(r.unwrap_err(), WunderlandError::UnauthorizedAuthority);

    let mut authority = Wallet { address: addr(9), lamports: 0 };
    let r = withdraw_treasury(&config, &mut treasury, &mut authority, 10_000_001, RESERVE);
    assert_eq!(r.unwrap_err(), WunderlandError::InsufficientTreasuryBalance);
    withdraw_treasury(&config, &mut treasury, &mut authority, 10_000_000, RESERVE).unwrap();
    assert_eq!(treasury.lamports, RESERVE);
    assert_eq!(authority.lamports, 10_000_000);
    let r = withdraw_treasury(&config, &mut treasury, &mut authority, 0, RESERVE);
    assert_eq!(r.unwrap_err(), WunderlandError::InvalidAmount);
}
