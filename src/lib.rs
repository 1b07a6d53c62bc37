//! Core of a feedback-directed smart-contract fuzzer: the corpus store and
//! its pruning, power scheduling, caller mutation and strategy selection, and
//! the oracles that judge an execution (fuzzer-profit accounting on value
//! transfers, profit sanity checks, balance-drain detection and reentrancy
//! fingerprinting).
pub mod address;
pub mod balance_drain;
pub mod balance_tracker;
pub mod corpus;
pub mod finding;
pub mod mutator;
pub mod profit;
pub mod reentrancy;
pub mod scheduler;
pub mod text;
pub mod wide;
