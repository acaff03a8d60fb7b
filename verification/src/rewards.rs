//! The Merkle reward distributor.
//!
//! Publishing an epoch moves value out of a treasury into a dedicated
//! epoch escrow under a Merkle root.  Claims are permissionless but
//! proof-gated, pay into the named agent's vault only, and are blocked
//! from repeating by a claim receipt per `(epoch, leaf index)`.  Sweeping
//! returns what is left to the originating treasury once the claim
//! deadline has passed, and can happen only once.

use vstd::prelude::*;

use crate::addr::{addr_eq, is_zero_addr, zero_addr, Address};
use crate::errors::WunderlandError;
use crate::merkle::{compute_leaf, leaf_hash, merkle_fold, verify_merkle_proof};
use crate::state::{
    AgentIdentity, AgentVault, Enclave, EnclaveTreasury, GlobalTreasury, ProgramConfig,
    RewardsClaimReceipt, RewardsEpoch, Wallet,
};

verus! {

/// The set of claim receipts that exist, keyed by `(epoch, leaf index)`.
/// A receipt's mere existence prevents re-claiming that leaf.
pub struct RewardsClaimRegistry {
    /// Every receipt created so far.
    pub entries: Vec<RewardsClaimReceipt>,
}

impl RewardsClaimRegistry {
    /// Whether a receipt exists for leaf `index` of the epoch at
    /// `epoch_address`.
    pub open spec fn has_receipt(self, epoch_address: Seq<u8>, index: u32) -> bool {
        exists|k: int|
            0 <= k < self.entries@.len() && (#[trigger] self.entries@[k]).rewards_epoch@
                == epoch_address && self.entries@[k].index == index
    }

    /// An empty registry: no receipts at all.
    pub fn new() -> (r: RewardsClaimRegistry)
        ensures
            r.entries@.len() == 0,
            forall|a: Seq<u8>, i: u32| !r.has_receipt(a, i),
    {
        RewardsClaimRegistry { entries: Vec::new() }
    }

    /// Looks up whether a receipt exists for `(epoch_address, index)`.
    pub fn contains(&self, epoch_address: &Address, index: u32) -> (r: bool)
        ensures
            r == self.has_receipt(epoch_address@, index),
    {
        let mut k: usize = 0;
        while k < self.entries.len()
            invariant
                0 <= k <= self.entries@.len(),
                forall|j: int|
                    0 <= j < k ==> !((#[trigger] self.entries@[j]).rewards_epoch@
                        == epoch_address@ && self.entries@[j].index == index),
            decreases self.entries@.len() - k,
        {
            let entry = &self.entries[k];
            if addr_eq(&entry.rewards_epoch, epoch_address) && entry.index == index {
                return true;
            }
            k = k + 1;
        }
        false
    }
}

/// The exact outcome of publishing an enclave rewards epoch's checks.
pub open spec fn publish_rewards_epoch_error(
    enclave: Enclave,
    enclave_treasury: EnclaveTreasury,
    authority: Wallet,
    merkle_root: [u8; 32],
    amount: u64,
    claim_window_seconds: i64,
    now: i64,
    treasury_min_reserve: u64,
    epoch_min_reserve: u64,
) -> Option<WunderlandError> {
    if authority.address@ != enclave.creator_owner@ {
        Some(WunderlandError::UnauthorizedEnclaveOwner)
    } else if !enclave.is_active {
        Some(WunderlandError::EnclaveInactive)
    } else if amount == 0 {
        Some(WunderlandError::InvalidAmount)
    } else if merkle_root@ == zero_addr() {
        Some(WunderlandError::InvalidMerkleRoot)
    } else if claim_window_seconds < 0 {
        Some(WunderlandError::InvalidAmount)
    } else if claim_window_seconds != 0 && now + claim_window_seconds > i64::MAX {
        Some(WunderlandError::ArithmeticOverflow)
    } else if enclave_treasury.lamports < treasury_min_reserve + amount {
        Some(WunderlandError::InsufficientEnclaveTreasuryBalance)
    } else if epoch_min_reserve + amount > u64::MAX {
        Some(WunderlandError::ArithmeticOverflow)
    } else {
        None
    }
}

/// The claim deadline a published epoch carries: zero (no deadline) for a
/// zero window, else `now` plus the window.
pub open spec fn epoch_deadline(now: i64, claim_window_seconds: i64) -> int {
    if claim_window_seconds == 0 {
        0
    } else {
        now + claim_window_seconds
    }
}

/// Publishes a rewards epoch for an enclave: moves `amount` out of the
/// enclave treasury into a fresh epoch escrow under `merkle_root`, with
/// an optional claim deadline.  Only the enclave's owner may publish; the
/// publisher pays the new account's minimum reserve.  On failure nothing
/// is mutated.
pub fn publish_rewards_epoch(
    enclave: &Enclave,
    enclave_treasury: &mut EnclaveTreasury,
    authority: &mut Wallet,
    epoch: u64,
    merkle_root: [u8; 32],
    amount: u64,
    claim_window_seconds: i64,
    now: i64,
    epoch_address: Address,
    treasury_min_reserve: u64,
    epoch_min_reserve: u64,
) -> (r: Result<RewardsEpoch, WunderlandError>)
    requires
        old(enclave_treasury).enclave@ == enclave.address@,
        old(authority).lamports >= epoch_min_reserve,
    ensures
        match r {
            Ok(ep) => {
                &&& publish_rewards_epoch_error(
                    *enclave,
                    *old(enclave_treasury),
                    *old(authority),
                    merkle_root,
                    amount,
                    claim_window_seconds,
                    now,
                    treasury_min_reserve,
                    epoch_min_reserve,
                ) is None
                &&& ep.address == epoch_address
                &&& ep.enclave == enclave.address
                &&& ep.epoch == epoch
                &&& ep.merkle_root == merkle_root
                &&& ep.total_amount == amount
                &&& ep.claimed_amount == 0
                &&& ep.published_at == now
                &&& ep.claim_deadline == epoch_deadline(now, claim_window_seconds)
                &&& ep.swept_at == 0
                &&& ep.lamports == epoch_min_reserve + amount
                &&& *final(enclave_treasury) == (EnclaveTreasury {
                    lamports: (old(enclave_treasury).lamports - amount) as u64,
                    ..*old(enclave_treasury)
                })
                &&& final(enclave_treasury).lamports >= treasury_min_reserve
                &&& *final(authority) == (Wallet {
                    lamports: (old(authority).lamports - epoch_min_reserve) as u64,
                    ..*old(authority)
                })
            },
            Err(e) => {
                &&& Some(e) == publish_rewards_epoch_error(
                    *enclave,
                    *old(enclave_treasury),
                    *old(authority),
                    merkle_root,
                    amount,
                    claim_window_seconds,
                    now,
                    treasury_min_reserve,
                    epoch_min_reserve,
                )
                &&& *final(enclave_treasury) == *old(enclave_treasury)
                &&& *final(authority) == *old(authority)
            },
        },
{
    if !addr_eq(&authority.address, &enclave.creator_owner) {
        return Err(WunderlandError::UnauthorizedEnclaveOwner);
    }
    if !enclave.is_active {
        return Err(WunderlandError::EnclaveInactive);
    }
    if amount == 0 {
        return Err(WunderlandError::InvalidAmount);
    }
    if is_zero_addr(&merkle_root) {
        return Err(WunderlandError::InvalidMerkleRoot);
    }
    if claim_window_seconds < 0 {
        return Err(WunderlandError::InvalidAmount);
    }
    let claim_deadline: i64 = if claim_window_seconds == 0 {
        0
    } else {
        match now.checked_add(claim_window_seconds) {
            Some(v) => v,
            None => {
                return Err(WunderlandError::ArithmeticOverflow);
            },
        }
    };
    let covered = match treasury_min_reserve.checked_add(amount) {
        Some(bound) => enclave_treasury.lamports >= bound,
        None => false,
    };
    if !covered {
        return Err(WunderlandError::InsufficientEnclaveTreasuryBalance);
    }
    let epoch_lamports = match epoch_min_reserve.checked_add(amount) {
        Some(v) => v,
        None => {
            return Err(WunderlandError::ArithmeticOverflow);
        },
    };
    let ep = RewardsEpoch {
        address: epoch_address,
        enclave: enclave.address,
        epoch,
        merkle_root,
        total_amount: amount,
        claimed_amount: 0,
        published_at: now,
        claim_deadline,
        swept_at: 0,
        lamports: epoch_lamports,
    };
    enclave_treasury.lamports = enclave_treasury.lamports - amount;
    authority.lamports = authority.lamports - epoch_min_reserve;
    Ok(ep)
}

/// The exact outcome of publishing a global rewards epoch's checks.
pub open spec fn publish_global_rewards_epoch_error(
    config: ProgramConfig,
    treasury: GlobalTreasury,
    authority: Wallet,
    merkle_root: [u8; 32],
    amount: u64,
    claim_window_seconds: i64,
    now: i64,
    treasury_min_reserve: u64,
    epoch_min_reserve: u64,
) -> Option<WunderlandError> {
    if authority.address@ != config.authority@ {
        Some(WunderlandError::UnauthorizedAuthority)
    } else if amount == 0 {
        Some(WunderlandError::InvalidAmount)
    } else if merkle_root@ == zero_addr() {
        Some(WunderlandError::InvalidMerkleRoot)
    } else if claim_window_seconds < 0 {
        Some(WunderlandError::InvalidAmount)
    } else if claim_window_seconds != 0 && now + claim_window_seconds > i64::MAX {
        Some(WunderlandError::ArithmeticOverflow)
    } else if treasury.lamports < treasury_min_reserve + amount {
        Some(WunderlandError::InsufficientTreasuryBalance)
    } else if epoch_min_reserve + amount > u64::MAX {
        Some(WunderlandError::ArithmeticOverflow)
    } else {
        None
    }
}

/// Publishes a rewards epoch funded from the global treasury; the epoch's
/// enclave field carries the zero-address sentinel.  Authority-only; the
/// publisher pays the new account's minimum reserve.  On failure nothing
/// is mutated.
pub fn publish_global_rewards_epoch(
    config: &ProgramConfig,
    treasury: &mut GlobalTreasury,
    authority: &mut Wallet,
    epoch: u64,
    merkle_root: [u8; 32],
    amount: u64,
    claim_window_seconds: i64,
    now: i64,
    epoch_address: Address,
    treasury_min_reserve: u64,
    epoch_min_reserve: u64,
) -> (r: Result<RewardsEpoch, WunderlandError>)
    requires
        old(treasury).authority@ == config.authority@,
        old(authority).lamports >= epoch_min_reserve,
    ensures
        match r {
            Ok(ep) => {
                &&& publish_global_rewards_epoch_error(
                    *config,
                    *old(treasury),
                    *old(authority),
                    merkle_root,
                    amount,
                    claim_window_seconds,
                    now,
                    treasury_min_reserve,
                    epoch_min_reserve,
                ) is None
                &&& ep.address == epoch_address
                &&& ep.enclave@ == zero_addr()
                &&& ep.epoch == epoch
                &&& ep.merkle_root == merkle_root
                &&& ep.total_amount == amount
                &&& ep.claimed_amount == 0
                &&& ep.published_at == now
                &&& ep.claim_deadline == epoch_deadline(now, claim_window_seconds)
                &&& ep.swept_at == 0
                &&& ep.lamports == epoch_min_reserve + amount
                &&& *final(treasury) == (GlobalTreasury {
                    lamports: (old(treasury).lamports - amount) as u64,
                    ..*old(treasury)
                })
                &&& final(treasury).lamports >= treasury_min_reserve
                &&& *final(authority) == (Wallet {
                    lamports: (old(authority).lamports - epoch_min_reserve) as u64,
                    ..*old(authority)
                })
            },
            Err(e) => {
                &&& Some(e) == publish_global_rewards_epoch_error(
                    *config,
                    *old(treasury),
                    *old(authority),
                    merkle_root,
                    amount,
                    claim_window_seconds,
                    now,
                    treasury_min_reserve,
                    epoch_min_reserve,
                )
                &&& *final(treasury) == *old(treasury)
                &&& *final(authority) == *old(authority)
            },
        },
{
    if !addr_eq(&authority.address, &config.authority) {
        return Err(WunderlandError::UnauthorizedAuthority);
    }
    if amount == 0 {
        return Err(WunderlandError::InvalidAmount);
    }
    if is_zero_addr(&merkle_root) {
        return Err(WunderlandError::InvalidMerkleRoot);
    }
    if claim_window_seconds < 0 {
        return Err(WunderlandError::InvalidAmount);
    }
    let claim_deadline: i64 = if claim_window_seconds == 0 {
        0
    } else {
        match now.checked_add(claim_window_seconds) {
            Some(v) => v,
            None => {
                return Err(WunderlandError::ArithmeticOverflow);
            },
        }
    };
    let covered = match treasury_min_reserve.checked_add(amount) {
        Some(bound) => treasury.lamports >= bound,
        None => false,
    };
    if !covered {
        return Err(WunderlandError::InsufficientTreasuryBalance);
    }
    let epoch_lamports = match epoch_min_reserve.checked_add(amount) {
        Some(v) => v,
        None => {
            return Err(WunderlandError::ArithmeticOverflow);
        },
    };
    let ep = RewardsEpoch {
        address: epoch_address,
        enclave: crate::addr::zero_address(),
        epoch,
        merkle_root,
        total_amount: amount,
        claimed_amount: 0,
        published_at: now,
        claim_deadline,
        swept_at: 0,
        lamports: epoch_lamports,
    };
    treasury.lamports = treasury.lamports - amount;
    authority.lamports = authority.lamports - epoch_min_reserve;
    Ok(ep)
}

/// The exact outcome of a reward claim's checks: the receipt's absence is
/// checked first — a recorded claim blocks everything after it, whatever
/// the proof — then the amount, the proof length cap, the claim window,
/// the swept flag, the Merkle proof itself, and the accounting bounds.
pub open spec fn claim_rewards_error(
    epoch: RewardsEpoch,
    agent: AgentIdentity,
    vault: AgentVault,
    already_claimed: bool,
    index: u32,
    amount: u64,
    path: Seq<Seq<u8>>,
    now: i64,
    min_reserve: u64,
) -> Option<WunderlandError> {
    if already_claimed {
        Some(WunderlandError::RewardsAlreadyClaimed)
    } else if amount == 0 {
        Some(WunderlandError::InvalidAmount)
    } else if path.len() > 32 {
        Some(WunderlandError::MerkleProofTooLong)
    } else if epoch.claim_deadline != 0 && now > epoch.claim_deadline {
        Some(WunderlandError::ClaimWindowClosed)
    } else if epoch.swept_at != 0 {
        Some(WunderlandError::RewardsEpochSwept)
    } else if merkle_fold(
        leaf_hash(epoch.enclave@, epoch.epoch, index, agent.address@, amount),
        path,
        index as nat,
    ) != epoch.merkle_root@ {
        Some(WunderlandError::InvalidMerkleProof)
    } else if epoch.lamports < min_reserve + amount {
        Some(WunderlandError::InsufficientRewardsBalance)
    } else if epoch.claimed_amount + amount > u64::MAX {
        Some(WunderlandError::ArithmeticOverflow)
    } else if epoch.claimed_amount + amount > epoch.total_amount {
        Some(WunderlandError::InsufficientRewardsBalance)
    } else if vault.lamports + amount > u64::MAX {
        Some(WunderlandError::ArithmeticOverflow)
    } else {
        None
    }
}

/// Claims one allocation from a rewards epoch.  Permissionless: anyone
/// may submit the proof, but the amount is paid into the named agent's
/// vault, never the caller's.  A valid proof for leaf `index` must fold
/// to the epoch's root; success records a claim receipt whose existence
/// makes any repeat claim of the same leaf fail.  On failure nothing is
/// mutated.
pub fn claim_rewards(
    epoch: &mut RewardsEpoch,
    agent: &AgentIdentity,
    vault: &mut AgentVault,
    registry: &mut RewardsClaimRegistry,
    index: u32,
    amount: u64,
    proof: &Vec<[u8; 32]>,
    now: i64,
    min_reserve: u64,
) -> (r: Result<(), WunderlandError>)
    requires
        old(vault).agent@ == agent.address@,
    ensures
        match r {
            Ok(()) => {
                &&& claim_rewards_error(
                    *old(epoch),
                    *agent,
                    *old(vault),
                    old(registry).has_receipt(old(epoch).address@, index),
                    index,
                    amount,
                    proof@.map_values(|s: [u8; 32]| s@),
                    now,
                    min_reserve,
                ) is None
                &&& *final(epoch) == (RewardsEpoch {
                    claimed_amount: (old(epoch).claimed_amount + amount) as u64,
                    lamports: (old(epoch).lamports - amount) as u64,
                    ..*old(epoch)
                })
                &&& final(epoch).lamports >= min_reserve
                &&& *final(vault) == (AgentVault {
                    lamports: (old(vault).lamports + amount) as u64,
                    ..*old(vault)
                })
                &&& (final(vault).lamports - old(vault).lamports) + (final(epoch).lamports
                    - old(epoch).lamports) == 0
                &&& final(registry).entries@ == old(registry).entries@.push(
                    RewardsClaimReceipt {
                        rewards_epoch: old(epoch).address,
                        index,
                        agent: agent.address,
                        amount,
                        claimed_at: now,
                    },
                )
                &&& final(registry).has_receipt(old(epoch).address@, index)
            },
            Err(e) => {
                &&& Some(e) == claim_rewards_error(
                    *old(epoch),
                    *agent,
                    *old(vault),
                    old(registry).has_receipt(old(epoch).address@, index),
                    index,
                    amount,
                    proof@.map_values(|s: [u8; 32]| s@),
                    now,
                    min_reserve,
                )
                &&& *final(epoch) == *old(epoch)
                &&& *final(vault) == *old(vault)
                &&& *final(registry) == *old(registry)
            },
        },
{
    if registry.contains(&epoch.address, index) {
        return Err(WunderlandError::RewardsAlreadyClaimed);
    }
    if amount == 0 {
        return Err(WunderlandError::InvalidAmount);
    }
    if proof.len() > 32 {
        return Err(WunderlandError::MerkleProofTooLong);
    }
    if epoch.claim_deadline != 0 && now > epoch.claim_deadline {
        return Err(WunderlandError::ClaimWindowClosed);
    }
    if epoch.swept_at != 0 {
        return Err(WunderlandError::RewardsEpochSwept);
    }
    let leaf = compute_leaf(&epoch.enclave, epoch.epoch, index, &agent.address, amount);
    if !verify_merkle_proof(&epoch.merkle_root, &leaf, proof, index) {
        return Err(WunderlandError::InvalidMerkleProof);
    }
    let covered = match min_reserve.checked_add(amount) {
        Some(bound) => epoch.lamports >= bound,
        None => false,
    };
    if !covered {
        return Err(WunderlandError::InsufficientRewardsBalance);
    }
    let next_claimed = match epoch.claimed_amount.checked_add(amount) {
        Some(v) => v,
        None => {
            return Err(WunderlandError::ArithmeticOverflow);
        },
    };
    if next_claimed > epoch.total_amount {
        return Err(WunderlandError::InsufficientRewardsBalance);
    }
    let new_vault_lamports = match vault.lamports.checked_add(amount) {
        Some(v) => v,
        None => {
            return Err(WunderlandError::ArithmeticOverflow);
        },
    };
    epoch.claimed_amount = next_claimed;
    epoch.lamports = epoch.lamports - amount;
    vault.lamports = new_vault_lamports;
    registry.entries.push(
        RewardsClaimReceipt {
            rewards_epoch: epoch.address,
            index,
            agent: agent.address,
            amount,
            claimed_at: now,
        },
    );
    proof {
        let n = registry.entries@.len() - 1;
        assert(registry.entries@[n].rewards_epoch@ == epoch.address@);
        assert(registry.entries@[n].index == index);
    }
    Ok(())
}

/// Once a claim has been recorded for a leaf — the registry holding its
/// receipt — every further claim of the same `(epoch, leaf index)` fails
/// with the double-claim condition, regardless of the proof supplied or
/// any other argument.
pub proof fn lemma_double_claim_rejected(
    registry_before: RewardsClaimRegistry,
    registry_after: RewardsClaimRegistry,
    receipt: RewardsClaimReceipt,
    epoch: RewardsEpoch,
    agent: AgentIdentity,
    vault: AgentVault,
    amount: u64,
    path: Seq<Seq<u8>>,
    now: i64,
    min_reserve: u64,
)
    requires
        registry_after.entries@ == registry_before.entries@.push(receipt),
        receipt.rewards_epoch@ == epoch.address@,
    ensures
        registry_after.has_receipt(epoch.address@, receipt.index),
        claim_rewards_error(
            epoch,
            agent,
            vault,
            registry_after.has_receipt(epoch.address@, receipt.index),
            receipt.index,
            amount,
            path,
            now,
            min_reserve,
        ) == Some(WunderlandError::RewardsAlreadyClaimed),
{
    let n = registry_after.entries@.len() - 1;
    assert(registry_after.entries@[n] == receipt);
}

/// The exact outcome of an unclaimed-rewards sweep's checks: a sweep
/// needs a non-zero deadline that has passed and an epoch not yet swept.
pub open spec fn sweep_error(
    epoch: RewardsEpoch,
    treasury_lamports: u64,
    now: i64,
    min_reserve: u64,
) -> Option<WunderlandError> {
    let sweep_amount = epoch.lamports - min_reserve;
    if epoch.claim_deadline == 0 {
        Some(WunderlandError::RewardsEpochNoDeadline)
    } else if now < epoch.claim_deadline {
        Some(WunderlandError::ClaimWindowOpen)
    } else if epoch.swept_at != 0 {
        Some(WunderlandError::RewardsEpochSwept)
    } else if epoch.lamports < min_reserve {
        Some(WunderlandError::InsufficientRewardsBalance)
    } else if treasury_lamports + sweep_amount > u64::MAX {
        Some(WunderlandError::ArithmeticOverflow)
    } else {
        None
    }
}

/// Sweeps an enclave epoch's unclaimed remainder — everything above the
/// epoch account's minimum reserve — back to the enclave treasury.
/// Permissionless but deadline-gated; a second sweep fails.  On failure
/// nothing is mutated.
pub fn sweep_unclaimed_rewards(
    enclave_treasury: &mut EnclaveTreasury,
    epoch: &mut RewardsEpoch,
    now: i64,
    min_reserve: u64,
) -> (r: Result<(), WunderlandError>)
    requires
        old(epoch).enclave@ == old(enclave_treasury).enclave@,
    ensures
        match r {
            Ok(()) => {
                &&& sweep_error(*old(epoch), old(enclave_treasury).lamports, now, min_reserve)
                    is None
                &&& *final(epoch) == (RewardsEpoch {
                    swept_at: now,
                    lamports: min_reserve,
                    ..*old(epoch)
                })
                &&& *final(enclave_treasury) == (EnclaveTreasury {
                    lamports: (old(enclave_treasury).lamports + (old(epoch).lamports
                        - min_reserve)) as u64,
                    ..*old(enclave_treasury)
                })
                &&& (final(enclave_treasury).lamports - old(enclave_treasury).lamports) + (final(epoch).lamports
                    - old(epoch).lamports) == 0
            },
            Err(e) => {
                &&& Some(e) == sweep_error(
                    *old(epoch),
                    old(enclave_treasury).lamports,
                    now,
                    min_reserve,
                )
                &&& *final(epoch) == *old(epoch)
                &&& *final(enclave_treasury) == *old(enclave_treasury)
            },
        },
{
    if epoch.claim_deadline == 0 {
        return Err(WunderlandError::RewardsEpochNoDeadline);
    }
    if now < epoch.claim_deadline {
        return Err(WunderlandError::ClaimWindowOpen);
    }
    if epoch.swept_at != 0 {
        return Err(WunderlandError::RewardsEpochSwept);
    }
    if epoch.lamports < min_reserve {
        return Err(WunderlandError::InsufficientRewardsBalance);
    }
    let sweep_amount = epoch.lamports - min_reserve;
    let new_treasury_lamports = match enclave_treasury.lamports.checked_add(sweep_amount) {
        Some(v) => v,
        None => {
            return Err(WunderlandError::ArithmeticOverflow);
        },
    };
    epoch.lamports = min_reserve;
    enclave_treasury.lamports = new_treasury_lamports;
    epoch.swept_at = now;
    Ok(())
}

/// Sweeps a global epoch's unclaimed remainder back to the global
/// treasury.  Permissionless but deadline-gated; a second sweep fails.
/// On failure nothing is mutated.
pub fn sweep_unclaimed_global_rewards(
    config: &ProgramConfig,
    treasury: &mut GlobalTreasury,
    epoch: &mut RewardsEpoch,
    now: i64,
    min_reserve: u64,
) -> (r: Result<(), WunderlandError>)
    requires
        old(epoch).enclave@ == zero_addr(),
        old(treasury).authority@ == config.authority@,
    ensures
        match r {
            Ok(()) => {
                &&& sweep_error(*old(epoch), old(treasury).lamports, now, min_reserve) is None
                &&& *final(epoch) == (RewardsEpoch {
                    swept_at: now,
                    lamports: min_reserve,
                    ..*old(epoch)
                })
                &&& *final(treasury) == (GlobalTreasury {
                    lamports: (old(treasury).lamports + (old(epoch).lamports - min_reserve)) as u64,
                    ..*old(treasury)
                })
            },
            Err(e) => {
                &&& Some(e) == sweep_error(*old(epoch), old(treasury).lamports, now, min_reserve)
                &&& *final(epoch) == *old(epoch)
                &&& *final(treasury) == *old(treasury)
            },
        },
{
    if epoch.claim_deadline == 0 {
        return Err(WunderlandError::RewardsEpochNoDeadline);
    }
    if now < epoch.claim_deadline {
        return Err(WunderlandError::ClaimWindowOpen);
    }
    if epoch.swept_at != 0 {
        return Err(WunderlandError::RewardsEpochSwept);
    }
    if epoch.lamports < min_reserve {
        return Err(WunderlandError::InsufficientRewardsBalance);
    }
    let sweep_amount = epoch.lamports - min_reserve;
    let new_treasury_lamports = match treasury.lamports.checked_add(sweep_amount) {
        Some(v) => v,
        None => {
            return Err(WunderlandError::ArithmeticOverflow);
        },
    };
    epoch.lamports = min_reserve;
    treasury.lamports = new_treasury_lamports;
    epoch.swept_at = now;
    Ok(())
}

} // verus!
