//! Ledger transactions: the record, its storage row, and the rules that turn
//! replies of storage into repository results and HTTP responses.

pub mod error;
pub mod handlers;
pub mod model;
pub mod repository;
