use crate::host::StdError;
use crate::owned::Error;
use vstd::prelude::*;

verus! {

/// Why a message was refused.
#[derive(Clone, Debug, PartialEq, Eq)]
pub enum ContractError {
    Std(StdError),
    Owned(Error),
    Unauthorized,
    CannotMigrate { previous_contract: String },
}

} // verus!
