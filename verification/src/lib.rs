//! Synthetic traffic for a blockchain node: the rules by which scripted scenarios are
//! planned, confirmed through chain events, scheduled and accounted for.
//!
//! Talking to the node, waiting for a timer and serving requests is left to whoever drives
//! the library. Here are the decisions: what a scenario asks of the chain next, what it
//! expects back, and what the registry records about each run.

pub mod chance;
pub mod config;
pub mod endowment;
pub mod engine;
pub mod event;
pub mod failure;
pub mod ident;
pub mod interval;
pub mod listener;
pub mod logger;
pub mod multisig;
pub mod random_transfers;
pub mod scenario;
pub mod schedule;
pub mod shape;
pub mod stats;
pub mod text;
pub mod transfer;
pub mod units;
pub mod vest;
pub mod vesting;
