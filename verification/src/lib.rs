//! The contracts of a price-oracle network, as state machines: each takes the
//! storage it left behind and a message, and gives the storage it leaves and
//! its response. The aggregator takes in the signed reports of a committee of
//! oracles, stores the median of each round and pays the oracles; around it
//! stand the access controller, the flags registry, the deviation validator
//! and the proxies.

pub mod access_controller;
pub mod bytes;
pub mod decimal;
pub mod deviation_flagging_validator;
pub mod flags;
pub mod hash;
pub mod host;
pub mod ocr2;
pub mod owned;
pub mod proxy_ocr2;
pub mod query_proxy;
pub mod table;
pub mod text;
