//! A token-staking ledger: a pool administrator opens a staking program over a
//! fixed window of clock ticks, participants deposit a staking token, rewards
//! accrue one unit per elapsed tick, and participants may withdraw principal
//! or settle rewards. The reward-accrual state machine and the record
//! lifecycle live here, verified; the host that keeps the clock, moves tokens
//! and stores the records performs the requests this library computes.

pub mod codec;
pub mod laws;
pub mod ops;
pub mod state;
