use vstd::prelude::*;

verus! {

/// What sets the contract up.
#[derive(Clone, Debug, PartialEq, Eq)]
pub struct InstantiateMsg {
    pub raising_access_controller: String,
    pub lowering_access_controller: String,
}

/// The messages that change the contract.
#[derive(Clone, Debug, PartialEq, Eq)]
pub enum ExecuteMsg {
    /// Initiate contract ownership transfer to another address.
    /// Can be used only by owner
    TransferOwnership {
        /// Address to transfer ownership to
        to: String,
    },
    /// Finish contract ownership transfer. Can be used only by pending owner
    AcceptOwnership,
    RaiseFlag { subject: String },
    RaiseFlags { subjects: Vec<String> },
    LowerFlags { subjects: Vec<String> },
    SetRaisingAccessController { rac_address: String },
}

/// The questions that the contract answers.
#[derive(Clone, Debug, PartialEq, Eq)]
pub enum QueryMsg {
    Owner {},
    Flag { subject: String },
    Flags { subjects: Vec<String> },
    RaisingAccessController {},
}

/// The answer to a query.
#[derive(Clone, Debug, PartialEq, Eq)]
pub enum QueryResponse {
    Owner(String),
    Flag(bool),
    Flags(Vec<bool>),
    RaisingAccessController(String),
}

} // verus!
