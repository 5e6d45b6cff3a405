//! Reward-for-participation escrow core.
//!
//! A sponsor creates a survey, deposits funds into a custody sub-account
//! (the vault) tied to that survey by a deterministic address, and a
//! delegated controller authorizes per-participant payouts up to a fixed
//! count and fixed per-payout amount.
//!
//! The library models identities and addresses as plain 32-byte values,
//! account balances as a small ledger, and participations as a registry of
//! one-time receipts; the hosting ledger's own execution engine (signature
//! checks, per-address locking, atomic commit) stays outside.

pub mod address;
pub mod bank;
pub mod counters;
pub mod errors;
pub mod ops;
pub mod participation;
pub mod survey;
