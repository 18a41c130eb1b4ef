//! An in-memory mirror of a multi-asset liquidity pool: reconciliation of the
//! asset list across refreshes, exchange quotes between two assets, and the
//! assembly of the exact-input swap instruction.
pub mod fees;
pub mod mirror;
pub mod quote;
pub mod reconcile;
pub mod refresh;
pub mod resolvers;
pub mod swap_ix;
pub mod trade;
pub mod types;
