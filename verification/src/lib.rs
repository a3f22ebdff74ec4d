//! An in-memory transaction ledger: client accounts, disputable deposits and
//! the engine that applies deposit, withdrawal, dispute, resolve and
//! chargeback records to them.

pub mod amount;
pub mod account;
pub mod transaction;
pub mod store;
pub mod ledger;
pub mod processor;
pub mod laws;
