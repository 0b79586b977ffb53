//! Validation, signing order and idempotent storage of pending transactions.

pub mod calldata;
pub mod config;
pub mod delivery;
pub mod event;
pub mod json;
pub mod pipeline;
pub mod text;
pub mod transactions;

pub use config::Config;
