//! Settlement core for a binary prediction market.
//!
//! Users stake value on a YES/NO outcome for a titled proposition; after a
//! deadline an authority resolves the market (or cancels it at any time while
//! it is active), and winners receive a proportional, floored share of the
//! combined pool. Two asset classes (a native value unit and a fungible
//! ledger-tracked token) share one accounting model.
//!
//! The crate holds the market lifecycle state machine and the share-based
//! payout accounting: record layouts and their invariants, the six settlement
//! operations, the error taxonomy, and the payout laws. Moving value between
//! accounts, allocating records, verifying signatures, reading the clock and
//! delivering notifications are the host's work: each operation takes the
//! current record state and the clock reading as plain values and returns the
//! mutated records together with the transfer request and notification
//! payload the host must commit atomically with them.

pub mod errors;
pub mod events;
pub mod laws;
pub mod ops;
pub mod state;
