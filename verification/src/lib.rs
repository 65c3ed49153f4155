//! Dual-asset staking-reward accounting engine.
//!
//! Users stake two fungible assets (a primary one and a secondary one whose
//! stake is weighted relative to the primary) and accrue a continuously
//! emitted settlement-asset reward in proportion to their weighted share of
//! the pool over time. This crate holds the accounting core: the global
//! per-share reward accumulator, per-user positions with their reward-debt
//! checkpoints, the custodial vault's solvency rules, and the handlers for
//! the user-facing and governance transitions. Every function here is
//! verified; the host that owns the accounts, moves the assets and reads the
//! clock calls into this crate with plain values.

pub mod errors;
pub mod instructions;
pub mod laws;
pub mod state;
