use vstd::prelude::*;

verus! {

/// What sets the contract up.
#[derive(Clone, Debug, PartialEq, Eq)]
pub struct InstantiateMsg {
    /// The address of the flags contract
    pub flags: String,
    /// The threshold that will trigger a flag to be raised
    /// Setting the value of 100,000 is equivalent to tolerating a 100% change
    /// compared to the previous price
    pub flagging_threshold: u32,
}

/// The messages that change the contract.
#[derive(Clone, Debug, PartialEq, Eq)]
pub enum ExecuteMsg {
    /// Initiate contract ownership transfer to another address.
    /// Can be used only by owner
    TransferOwnership {
        /// Address to transfer ownership to
        to: String,
    },
    /// Finish contract ownership transfer. Can be used only by pending owner
    AcceptOwnership,
    /// Updates the flagging threshold
    /// Can be used only by owner
    SetFlaggingThreshold { threshold: u32 },
    /// Updates the flagging contract address for raising flags
    /// Can be used only by owner
    SetFlagsAddress { flags: String },
    /// Checks whether the parameters count as valid by comparing the difference
    /// change to the flagging threshold
    Validate {
        /// ID of the previous round
        previous_round_id: u32,
        /// Previous answer, used as the median of difference with the current
        /// answer to determine if the deviation threshold has been exceeded
        previous_answer: i128,
        /// ID of the current round
        round_id: u32,
        /// Current answer which is compared for a ration of change to make sure
        /// it has not exceeded the flagging threshold
        answer: i128,
    },
}

/// The questions that the contract answers.
#[derive(Clone, Copy, Debug, PartialEq, Eq, Structural)]
pub enum QueryMsg {
    /// Check whether the parameters count is valid by comparing the difference
    /// change to the flagging threshold
    IsValid {
        previous_answer: i128,
        answer: i128,
    },
    /// Query the flagging threshold
    FlaggingThreshold,
    /// Returns contract owner's address
    Owner,
}

/// The threshold in force.
#[derive(Clone, Copy, Debug, PartialEq, Eq, Structural)]
pub struct FlaggingThresholdResponse {
    pub threshold: u32,
}

/// The answer to a query.
#[derive(Clone, Debug, PartialEq, Eq)]
pub enum QueryResponse {
    IsValid(bool),
    FlaggingThreshold(FlaggingThresholdResponse),
    Owner(String),
}

} // verus!
