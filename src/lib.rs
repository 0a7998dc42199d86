//! Risk-gated trade execution: a pure risk validator, the decision steps of
//! the execution engine, the records kept for reconciliation, and request
//! signing for the exchange client.

pub mod types;
pub mod risk;
pub mod engine;
pub mod records;
pub mod decimal;
pub mod signing;
pub mod market;
