//! Delegated authorization and escrow settlement engine for an on-chain
//! agent marketplace.
//!
//! The crate models the ledger-visible state of the protocol as plain data
//! and verifies every value-moving or authorization-relevant transition:
//! tip escrow settlement, the job marketplace state machine, Merkle-proof
//! gated reward distribution, signer rotation and recovery, and the
//! per-wallet rate limiter.  Host-specific concerns (account loading,
//! transaction submission, sysvar access) live outside the library and hand
//! it plain values.

pub mod addr;
pub mod agents;
pub mod auth;
pub mod enclaves;
pub mod errors;
pub mod hashing;
pub mod jobs;
pub mod merkle;
pub mod posts;
pub mod rewards;
pub mod state;
pub mod tips;
pub mod vaults;
