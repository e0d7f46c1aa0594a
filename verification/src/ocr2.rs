//! The aggregator: it keeps the committee of oracles, takes their signed
//! reports, stores the median of each round and pays the oracles.

pub mod admin;
pub mod config;
pub mod contract;
pub mod error;
pub mod laws;
pub mod msg;
pub mod payees;
pub mod payment;
pub mod proposal;
pub mod query;
pub mod questions;
pub mod report;
pub mod state;
pub mod transmit;

pub use crate::decimal::Decimal;
pub use crate::ocr2::error::ContractError;
