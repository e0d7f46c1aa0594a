use vstd::prelude::*;

verus! {

/// What sets the contract up.
#[derive(Clone, Debug, PartialEq, Eq)]
pub struct InstantiateMsg {}

/// The messages that change the contract.
#[derive(Clone, Debug, PartialEq, Eq)]
pub enum ExecuteMsg {
    AddAccess { address: String },
    RemoveAccess { address: String },
    TransferOwnership { to: String },
    AcceptOwnership,
}

/// The questions that the contract answers.
#[derive(Clone, Debug, PartialEq, Eq)]
pub enum QueryMsg {
    HasAccess { address: String },
    Owner {},
}

} // verus!
