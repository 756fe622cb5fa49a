//! A fungible-token ledger with a per-operation transaction tax.
//!
//! The library holds the balance ledger, the dual-indexed allowance store,
//! the tax policy evaluator and the settlement engine that combines them.
//! Every state change is a verified function over an in-memory model; the
//! host glue loads and stores that model.
use vstd::prelude::*;

pub mod allowances;
pub mod contract;
pub mod decimal;
pub mod error;
pub mod laws;
pub mod ledger;
pub mod logo;
pub mod marketing;
pub mod migration;
pub mod tax;
pub mod whale;
