//! A verified model of a revenue-sharing investment agreement between an
//! investor and a startup: the fee arithmetic, the persisted agreement record
//! and its byte layout, the lifecycle operations, and the all-or-nothing
//! batches of token transfers those operations ask the host ledger to perform.
pub mod api;
pub mod error;
pub mod fees;
pub mod lifecycle;
pub mod record;
pub mod transfer;
