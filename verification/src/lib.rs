//! A token-staking rewards ledger.
//!
//! Depositors lock a stake asset for a minimum period and earn a fixed-rate
//! reward once that lockup completes. A small set of authorized
//! administrators configure pools and change reward rates under a mandatory
//! notice delay. This crate holds the economic state machine: reward
//! computation, forfeiture on early exit, solvency bookkeeping, time-locked
//! parameter governance, and the authorization layer that gates who may
//! create pools or act as admin.
//!
//! The durable keyed-record storage, signature verification, token movement
//! and the clock are external collaborators: every operation here is a pure
//! transition from plain values (records, amounts, timestamps, reported
//! transfer results) to new records or an error.

pub mod constants;
pub mod error;
pub mod pubkey;
pub mod state;
pub mod instruction;
pub mod processor;
pub mod laws;
