//! An in-memory bid ledger.
//!
//! A fixed catalog of biddable items is registered at construction; bids are
//! then accepted only against registered items. The ledger keeps, per item,
//! the full insertion-ordered bid history together with the current winning
//! bid (highest amount, earliest such bid on ties), and per user the
//! insertion-ordered log of all bids that user has placed. An access gate
//! serializes concurrent callers so that every operation observes a
//! consistent ledger state.

pub mod bid_management;
pub mod bid_tracker;
pub mod config;
pub mod errors;
pub mod gate;
pub mod laws;
