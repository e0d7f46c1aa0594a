//! The flags registry: addresses that have been flagged as out of the
//! ordinary, raised and lowered by those whom two access controllers allow.

pub mod contract;
pub mod error;
pub mod msg;
pub mod state;
