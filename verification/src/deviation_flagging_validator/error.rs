use crate::host::StdError;
use crate::owned::Error;
use vstd::prelude::*;

verus! {

/// Why a message was refused.
#[derive(Clone, Debug, PartialEq, Eq)]
pub enum ContractError {
    Std(StdError),
    OwnedError(Error),
    /// Only callable by owner
    Unauthorized,
    CannotMigrate { previous_contract: String },
}

} // verus!
