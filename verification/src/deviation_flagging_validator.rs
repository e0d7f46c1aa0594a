//! The deviation validator: it compares each new answer with the answer before
//! it, and has the flag of the aggregator raised where the two differ by more
//! than a threshold.

pub mod contract;
pub mod error;
pub mod msg;
pub mod state;
