//! A minimal deterministic state-transition runtime: independent state
//! modules (account balances, system bookkeeping, a content-claim registry)
//! are composed into a single runtime that applies blocks of actions against
//! a unified state, with per-action dispatch and deterministic error
//! isolation.

pub mod balances;
pub mod config;
pub mod proof_of_existence;
pub mod runtime;
pub mod support;
pub mod system;
