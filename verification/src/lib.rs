//! A personal finance ledger: income and expense entries with optional
//! descriptions, a running balance, aggregate totals, and the text the
//! command-line front end shows for each operation.

pub mod account;
pub mod decimal;
pub mod messages;
pub mod passbook;
pub mod session;
pub mod transaction;
