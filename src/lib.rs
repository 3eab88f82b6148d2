//! A custody-account ledger: per-owner escrowed balances, withdrawals gated
//! behind a multi-signature threshold, and a count of accounts created.
//!
//! Every operation is a transaction: it either commits all of its effects or,
//! when it returns an error, leaves the ledger exactly as it found it.
pub mod account;
pub mod ledger;
pub mod laws;
pub mod record;
