//! Verified ledger logic for small on-chain stores: a bounded product
//! catalog, a bounded journal of purchase receipts, and the rules that
//! gate every change to a store record.

pub mod catalog;
pub mod error;
pub mod identity;
pub mod journal;
pub mod ledger;
pub mod let_me_buy;
pub mod settlement;
pub mod solana_bar;
pub mod text;
