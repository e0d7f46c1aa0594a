use crate::proxy_ocr2::state::Round;
use vstd::prelude::*;

verus! {

/// What sets the contract up.
#[derive(Clone, Debug, PartialEq, Eq)]
pub struct InstantiateMsg {
    pub contract_address: String,
}

/// The messages that change the contract.
#[derive(Clone, Debug, PartialEq, Eq)]
pub enum ExecuteMsg {
    ProposeContract { address: String },
    ConfirmContract { address: String },
    /// Initiate contract ownership transfer to another address.
    /// Can be used only by owner
    TransferOwnership {
        /// Address to transfer ownership to
        to: String,
    },
    /// Finish contract ownership transfer. Can be used only by pending owner
    AcceptOwnership,
}

/// The questions that the contract answers.
#[allow(inconsistent_fields)]
#[derive(Clone, Copy, Debug, PartialEq, Eq, Structural)]
pub enum QueryMsg {
    Decimals {},
    Version {},
    Description {},
    RoundData { round_id: u64 },
    LatestRoundData {},
    ProposedRoundData { round_id: u32 },
    ProposedLatestRoundData {},
    Aggregator {},
    PhaseId {},
    PhaseAggregators { phase_id: u16 },
    ProposedAggregator {},
    Owner {},
}

/// What the proxy asks an aggregator.
#[derive(Clone, Copy, Debug, PartialEq, Eq, Structural)]
pub enum AggregatorQuery {
    Decimals,
    Version,
    Description,
    RoundData { round_id: u32 },
    LatestRoundData,
}

/// What an aggregator answers.
#[derive(Clone, Debug, PartialEq, Eq)]
pub enum AggregatorAnswer {
    Decimals(u8),
    Version(String),
    Description(String),
    Round(crate::ocr2::state::Round),
}

/// The answer to a query.
#[derive(Clone, Debug, PartialEq, Eq)]
pub enum QueryResponse {
    Decimals(u8),
    Version(String),
    Description(String),
    /// A round of an aggregator in office, its number tagged by the phase.
    Round(Round),
    /// A round of the proposed aggregator, under its own number.
    ProposedRound(crate::ocr2::state::Round),
    Address(String),
    PhaseId(u16),
}

} // verus!
