//! A personal finance ledger: income and expense records, their validation,
//! and a store that appends them and answers balance and history queries.

pub mod database;
pub mod transaction;
