//! A verified core for executing one token-to-token swap: mint metadata
//! resolution, balance reading, and the orchestration sequence that leads a
//! swap from decimal resolution to submission.

pub mod address;
pub mod mint;
pub mod amount;
pub mod balance;
pub mod transaction;
pub mod quote;
pub mod swap;
pub mod trace;
pub mod display;
pub mod config;
