//! A ledger-replay engine: an ordered stream of deposit, withdrawal, dispute,
//! resolve and chargeback records is applied to per-client accounts, one
//! record at a time, and the final balances are read out.

pub mod account;
pub mod amount;
pub mod decimal;
pub mod engine;
pub mod laws;
pub mod ledger;
pub mod record;
