//! A pool of stream consumers with heartbeats and a rebalancer that hands the
//! pending entries of dead consumers to live ones.
//!
//! Everything here is decision logic over plain values: the process around it
//! performs the broker calls, the sleeps and the waits, and feeds the results
//! back in.

pub mod constants;
pub mod text;
pub mod heartbeat;
pub mod rebalance;
pub mod tick;
pub mod pool;
pub mod worker;
pub mod bindings;
pub mod config;
pub mod models;
pub mod reclaim;
