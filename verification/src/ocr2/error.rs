use crate::host::StdError;
use crate::owned::Error;
use vstd::prelude::*;

verus! {

/// Why a message was refused.
#[derive(Clone, Copy, Debug, PartialEq, Eq, Structural)]
pub enum ContractError {
    Std(StdError),
    /// The signatures could not be handed to verification.
    Verification,
    /// A payment left the range of token amounts, or a counter its range.
    Overflow,
    OwnedError(Error),
    Unauthorized,
    TooManySigners,
    StaleReport,
    DigestMismatch,
    WrongNumberOfSignatures,
    RepeatedAddress,
    InvalidSignature,
    InvalidInput,
    PayeeAlreadySet,
    TransferToSelf,
    MedianOutOfRange,
}

impl ContractError {
    /// The text of the error.
    pub open spec fn message(self) -> Seq<char> {
        match self {
            ContractError::Std(e) => e.message(),
            ContractError::Verification => "verification failed"@,
            ContractError::Overflow => "overflow"@,
            ContractError::OwnedError(e) => e.message(),
            ContractError::Unauthorized => "Unauthorized"@,
            ContractError::TooManySigners => "too many signers"@,
            ContractError::StaleReport => "stale report"@,
            ContractError::DigestMismatch => "config digest mismatch"@,
            ContractError::WrongNumberOfSignatures => "wrong number of signatures"@,
            ContractError::RepeatedAddress => "repeated address"@,
            ContractError::InvalidSignature => "invalid signature"@,
            ContractError::InvalidInput => "invalid input"@,
            ContractError::PayeeAlreadySet => "payee already set"@,
            ContractError::TransferToSelf => "cannot transfer to self"@,
            ContractError::MedianOutOfRange => "median is out of min-max range"@,
        }
    }

    /// The text of the error.
    pub fn to_string(&self) -> (s: String)
        ensures
            s@ == self.message(),
    {
        match self {
            ContractError::Std(e) => e.to_string(),
            ContractError::Verification => "verification failed".to_owned(),
            ContractError::Overflow => "overflow".to_owned(),
            ContractError::OwnedError(e) => e.to_string(),
            ContractError::Unauthorized => "Unauthorized".to_owned(),
            ContractError::TooManySigners => "too many signers".to_owned(),
            ContractError::StaleReport => "stale report".to_owned(),
            ContractError::DigestMismatch => "config digest mismatch".to_owned(),
            ContractError::WrongNumberOfSignatures => "wrong number of signatures".to_owned(),
            ContractError::RepeatedAddress => "repeated address".to_owned(),
            ContractError::InvalidSignature => "invalid signature".to_owned(),
            ContractError::InvalidInput => "invalid input".to_owned(),
            ContractError::PayeeAlreadySet => "payee already set".to_owned(),
            ContractError::TransferToSelf => "cannot transfer to self".to_owned(),
            ContractError::MedianOutOfRange => "median is out of min-max range".to_owned(),
        }
    }
}

} // verus!
