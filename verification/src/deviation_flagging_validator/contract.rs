use crate::deviation_flagging_validator::error::ContractError;
use crate::deviation_flagging_validator::msg::{
    ExecuteMsg, FlaggingThresholdResponse, InstantiateMsg, QueryMsg, QueryResponse,
};
use crate::deviation_flagging_validator::state::{State, Storage, StorageView};
use crate::host::{
    came_out, contract_version, Env, Message, MessageInfo, MessageView, Response, ResponseView,
    StdError,
};
use crate::owned::{AuthView, StateView};
use crate::text::{bool_text, bool_to_string, decimal, u128_to_string};
use vstd::prelude::*;

verus! {

/// The name under which the contract records itself.
pub const CONTRACT_NAME: &'static str = "crates.io:deviation-flagging-validator";

/// The version under which the contract records itself.
pub const CONTRACT_VERSION: &'static str = "1.0.0";

/// The threshold that stands for a change of the whole previous answer.
pub const THRESHOLD_MULTIPLIER: u128 = 100000;

/// The distance between two numbers.
pub open spec fn distance(a: int, b: int) -> nat {
    if a < b {
        (b - a) as nat
    } else {
        (a - b) as nat
    }
}

/// Whether `answer` is within the threshold of `previous_answer`: the change
/// in hundred-thousandths of the previous answer, rounded down, is at most
/// the threshold. Any answer is, after a previous answer of zero; none is
/// whose change times the multiplier leaves 128 bits.
pub open spec fn within_threshold(flagging_threshold: u32, previous_answer: i128, answer: i128)
    -> bool {
    if previous_answer == 0 {
        true
    } else {
        let numerator = distance(previous_answer as int, answer as int) * (
        THRESHOLD_MULTIPLIER as nat);
        if numerator > u128::MAX {
            false
        } else {
            numerator / distance(previous_answer as int, 0) <= flagging_threshold as nat
        }
    }
}

/// After a previous answer of zero every answer is valid.
pub proof fn lemma_first_answer_valid(flagging_threshold: u32, answer: i128)
    ensures
        within_threshold(flagging_threshold, 0, answer),
{
}

/// The number `x` moved up by two to the power 127, so that it is not negative.
fn raised_by_half(x: i128) -> (res: u128)
    ensures
        res == x + 0x8000_0000_0000_0000_0000_0000_0000_0000,
{
    if x >= 0 {
        (x as u128) + 0x8000_0000_0000_0000_0000_0000_0000_0000u128
    } else {
        (x - i128::MIN) as u128
    }
}

/// The distance between two numbers.
fn abs_diff(slf: i128, other: i128) -> (res: u128)
    ensures
        res == distance(slf as int, other as int),
{
    let a = raised_by_half(slf);
    let b = raised_by_half(other);
    if a < b {
        b - a
    } else {
        a - b
    }
}

/// Whether `answer` is within the threshold of `previous_answer`.
pub fn is_valid(flagging_threshold: u32, previous_answer: i128, answer: i128) -> (res: Result<
    bool,
    StdError,
>)
    ensures
        res == Ok::<bool, StdError>(within_threshold(flagging_threshold, previous_answer, answer)),
{
    if previous_answer == 0i128 {
        return Ok(true);
    }
    let change = abs_diff(previous_answer, answer);
    let ratio_numerator = match change.checked_mul(THRESHOLD_MULTIPLIER) {
        Some(ratio_numerator) => ratio_numerator,
        None => {
            return Ok(false);
        },
    };
    let ratio = ratio_numerator / abs_diff(previous_answer, 0);
    Ok(ratio <= flagging_threshold as u128)
}

impl StorageView {
    /// Fails unless `sender` owns the contract.
    pub open spec fn validate_ownership(self, sender: Seq<char>) -> Result<(), ContractError> {
        match self.owner.is_owner(sender) {
            Err(e) => Err(ContractError::Std(e)),
            Ok(false) => Err(ContractError::Unauthorized),
            Ok(true) => Ok(()),
        }
    }

    /// The sender has an answer judged. Where it is not valid, the flags
    /// registry is told to raise the sender's flag.
    pub open spec fn validate(self, sender: Seq<char>, previous_answer: i128, answer: i128) -> Result<
        (StorageView, ResponseView),
        ContractError,
    > {
        match self.config {
            None => Err(ContractError::Std(StdError::NotFound)),
            Some(c) => {
                let valid = within_threshold(c.0, previous_answer, answer);
                let first = if valid {
                    ResponseView::new()
                } else {
                    ResponseView::new().message(
                        MessageView::RaiseFlag { flags: c.1, subject: sender },
                    )
                };
                Ok(
                    (
                        self,
                        first.attr("action"@, "validate"@).attr(
                            "is_valid"@,
                            bool_text(valid),
                        ).with_data(valid),
                    ),
                )
            },
        }
    }

    /// The owner names the flags registry.
    pub open spec fn set_flags_address(self, sender: Seq<char>, flags: Seq<char>) -> Result<
        (StorageView, ResponseView),
        ContractError,
    > {
        match self.validate_ownership(sender) {
            Err(e) => Err(e),
            Ok(_) => match self.config {
                None => Err(ContractError::Std(StdError::NotFound)),
                Some(c) => if c.1 == flags {
                    Ok((self, ResponseView::new()))
                } else {
                    Ok(
                        (
                            StorageView { config: Some((c.0, flags)), ..self },
                            ResponseView::new().attr("action"@, "flags_address_updated"@).attr(
                                "previous"@,
                                c.1,
                            ),
                        ),
                    )
                },
            },
        }
    }

    /// The owner sets the threshold.
    pub open spec fn set_flagging_threshold(self, sender: Seq<char>, threshold: u32) -> Result<
        (StorageView, ResponseView),
        ContractError,
    > {
        match self.validate_ownership(sender) {
            Err(e) => Err(e),
            Ok(_) => match self.config {
                None => Err(ContractError::Std(StdError::NotFound)),
                Some(c) => if c.0 == threshold {
                    Ok((self, ResponseView::new()))
                } else {
                    Ok(
                        (
                            StorageView { config: Some((threshold, c.1)), ..self },
                            ResponseView::new().attr(
                                "action"@,
                                "flagging_threshold_updated"@,
                            ).attr("previous"@, decimal(c.0 as nat)).attr(
                                "current"@,
                                decimal(threshold as nat),
                            ),
                        ),
                    )
                },
            },
        }
    }

    /// What a message does to the storage, and the response to it.
    pub open spec fn executed(self, sender: Seq<char>, msg: ExecuteMsg) -> Result<
        (StorageView, ResponseView),
        ContractError,
    > {
        match msg {
            ExecuteMsg::SetFlagsAddress { flags } => self.set_flags_address(sender, flags@),
            ExecuteMsg::SetFlaggingThreshold { threshold } => self.set_flagging_threshold(
                sender,
                threshold,
            ),
            ExecuteMsg::Validate { previous_round_id, previous_answer, round_id, answer } => self.validate(
                sender,
                previous_answer,
                answer,
            ),
            ExecuteMsg::TransferOwnership { to } => match self.owner.transfer_ownership(
                sender,
                to@,
            ) {
                Ok((owner, response)) => Ok((StorageView { owner, ..self }, response)),
                Err(e) => Err(ContractError::OwnedError(e)),
            },
            ExecuteMsg::AcceptOwnership => match self.owner.accept_ownership(sender) {
                Ok((owner, response)) => Ok((StorageView { owner, ..self }, response)),
                Err(e) => Err(ContractError::OwnedError(e)),
            },
        }
    }
}

/// Sets the validator up, owned by the sender.
pub fn instantiate(storage: &mut Storage, _env: Env, info: MessageInfo, msg: InstantiateMsg) -> (res:
    Result<Response, ContractError>)
    ensures
        res is Ok,
        res->Ok_0@ == ResponseView::new(),
        final(storage)@ == (StorageView {
            version: Some((CONTRACT_NAME@, CONTRACT_VERSION@)),
            owner: AuthView {
                state: Some(StateView { owner: info.sender@, proposed_owner: None }),
                ..old(storage)@.owner
            },
            config: Some((msg.flagging_threshold, msg.flags@)),
        }),
{
    storage.version = Some(contract_version(CONTRACT_NAME, CONTRACT_VERSION));
    storage.config = Some(State { flags: msg.flags, flagging_threshold: msg.flagging_threshold });
    let _ = storage.owner.initialize(info.sender);
    Ok(Response::new())
}

/// Carries a message out.
pub fn execute(storage: &mut Storage, env: Env, info: MessageInfo, msg: ExecuteMsg) -> (res: Result<
    Response,
    ContractError,
>)
    ensures
        came_out(old(storage)@.executed(info.sender@, msg), res, old(storage)@, final(storage)@),
{
    match msg {
        ExecuteMsg::SetFlagsAddress { flags } => execute_set_flags_address(storage, env, info, flags),
        ExecuteMsg::SetFlaggingThreshold { threshold } => execute_set_flagging_threshold(
            storage,
            env,
            info,
            threshold,
        ),
        ExecuteMsg::Validate {
            previous_round_id,
            previous_answer,
            round_id,
            answer,
        } => execute_validate(
            storage,
            env,
            info,
            previous_round_id,
            previous_answer,
            round_id,
            answer,
        ),
        ExecuteMsg::TransferOwnership { to } => {
            match storage.owner.execute_transfer_ownership(info, to) {
                Ok(response) => Ok(response),
                Err(e) => Err(ContractError::OwnedError(e)),
            }
        },
        ExecuteMsg::AcceptOwnership => {
            match storage.owner.execute_accept_ownership(info) {
                Ok(response) => Ok(response),
                Err(e) => Err(ContractError::OwnedError(e)),
            }
        },
    }
}

/// Answers a query.
pub fn query(storage: &Storage, _env: Env, msg: QueryMsg) -> (res: Result<QueryResponse, StdError>)
    ensures
        match msg {
            QueryMsg::IsValid { previous_answer, answer } => match storage@.config {
                Some(c) => res == Ok::<QueryResponse, StdError>(
                    QueryResponse::IsValid(within_threshold(c.0, previous_answer, answer)),
                ),
                None => res == Err::<QueryResponse, StdError>(StdError::NotFound),
            },
            QueryMsg::FlaggingThreshold => match storage@.config {
                Some(c) => res == Ok::<QueryResponse, StdError>(
                    QueryResponse::FlaggingThreshold(FlaggingThresholdResponse { threshold: c.0 }),
                ),
                None => res == Err::<QueryResponse, StdError>(StdError::NotFound),
            },
            QueryMsg::Owner => match storage@.owner.state {
                Some(s) => res matches Ok(QueryResponse::Owner(owner)) && owner@ == s.owner,
                None => res == Err::<QueryResponse, StdError>(StdError::NotFound),
            },
        },
{
    match msg {
        QueryMsg::IsValid { previous_answer, answer } => {
            let flagging_threshold = match &storage.config {
                Some(config) => config.flagging_threshold,
                None => {
                    return Err(StdError::NotFound);
                },
            };
            Ok(QueryResponse::IsValid(is_valid(flagging_threshold, previous_answer, answer)?))
        },
        QueryMsg::FlaggingThreshold => Ok(
            QueryResponse::FlaggingThreshold(query_flagging_threshold(storage)?),
        ),
        QueryMsg::Owner => Ok(QueryResponse::Owner(storage.owner.query_owner()?)),
    }
}

/// The sender has an answer judged.
pub fn execute_validate(
    storage: &mut Storage,
    _env: Env,
    info: MessageInfo,
    _previous_round_id: u32,
    previous_answer: i128,
    _round_id: u32,
    answer: i128,
) -> (res: Result<Response, ContractError>)
    ensures
        came_out(
            old(storage)@.validate(info.sender@, previous_answer, answer),
            res,
            old(storage)@,
            final(storage)@,
        ),
{
    let config = match &storage.config {
        Some(config) => config,
        None => {
            return Err(ContractError::Std(StdError::NotFound));
        },
    };
    let is_valid = match is_valid(config.flagging_threshold, previous_answer, answer) {
        Ok(valid) => valid,
        Err(e) => {
            return Err(ContractError::Std(e));
        },
    };
    let mut response = Response::new();
    if !is_valid {
        response = response.add_message(
            Message::RaiseFlag { flags: config.flags.clone(), subject: info.sender },
        );
    }
    Ok(
        response.add_attribute("action", "validate".to_owned()).add_attribute(
            "is_valid",
            bool_to_string(is_valid),
        ).set_data(is_valid),
    )
}

/// The owner names the flags registry.
pub fn execute_set_flags_address(storage: &mut Storage, env: Env, info: MessageInfo, flags: String) -> (res:
    Result<Response, ContractError>)
    ensures
        came_out(
            old(storage)@.set_flags_address(info.sender@, flags@),
            res,
            old(storage)@,
            final(storage)@,
        ),
{
    validate_ownership(storage, &env, &info)?;
    let config = match &mut storage.config {
        Some(config) => config,
        None => {
            return Err(ContractError::Std(StdError::NotFound));
        },
    };
    let mut response = Response::new();
    if config.flags != flags {
        let previous = config.flags.clone();
        config.flags = flags;
        response = response.add_attribute(
            "action",
            "flags_address_updated".to_owned(),
        ).add_attribute("previous", previous);
    }
    Ok(response)
}

/// The owner sets the threshold.
pub fn execute_set_flagging_threshold(
    storage: &mut Storage,
    env: Env,
    info: MessageInfo,
    threshold: u32,
) -> (res: Result<Response, ContractError>)
    ensures
        came_out(
            old(storage)@.set_flagging_threshold(info.sender@, threshold),
            res,
            old(storage)@,
            final(storage)@,
        ),
{
    validate_ownership(storage, &env, &info)?;
    let config = match &mut storage.config {
        Some(config) => config,
        None => {
            return Err(ContractError::Std(StdError::NotFound));
        },
    };
    let mut response = Response::new();
    if config.flagging_threshold != threshold {
        let previous = config.flagging_threshold;
        config.flagging_threshold = threshold;
        response = response.add_attribute(
            "action",
            "flagging_threshold_updated".to_owned(),
        ).add_attribute("previous", u128_to_string(previous as u128)).add_attribute(
            "current",
            u128_to_string(threshold as u128),
        );
    }
    Ok(response)
}

/// The threshold.
pub fn query_flagging_threshold(storage: &Storage) -> (res: Result<
    FlaggingThresholdResponse,
    StdError,
>)
    ensures
        res == match storage@.config {
            Some(c) => Ok::<FlaggingThresholdResponse, StdError>(
                FlaggingThresholdResponse { threshold: c.0 },
            ),
            None => Err(StdError::NotFound),
        },
{
    match &storage.config {
        Some(config) => Ok(FlaggingThresholdResponse { threshold: config.flagging_threshold }),
        None => Err(StdError::NotFound),
    }
}

fn validate_ownership(storage: &Storage, _env: &Env, info: &MessageInfo) -> (res: Result<
    (),
    ContractError,
>)
    ensures
        res == storage@.validate_ownership(info.sender@),
{
    match storage.owner.is_owner(&info.sender) {
        Err(e) => Err(ContractError::Std(e)),
        Ok(false) => Err(ContractError::Unauthorized),
        Ok(true) => Ok(()),
    }
}

} // verus!
