//! What the owner and the holders of access do: the validator, the access
//! controllers, billing, the reward token and the funds.

use crate::access_controller::AccessControllerContract;
use crate::host::{
    came_out, Env, Event, EventView, Message, MessageInfo, MessageView, Querier, Response,
    ResponseView, StdError,
};
use crate::ocr2::error::ContractError;
use crate::ocr2::payment::{link_due, pay_oracles, settle, total_link_due};
use crate::ocr2::state::{Billing, ConfigView, Storage, StorageView, Validator, ValidatorView};
use crate::text::{decimal, hex, hex_encode, u128_to_string};
use vstd::prelude::*;

verus! {

/// A token contract's notice that tokens were sent to this contract.
#[derive(Clone, Debug, PartialEq, Eq)]
pub struct Cw20ReceiveMsg {
    pub sender: String,
    pub amount: u128,
    pub msg: Vec<u8>,
}

/// The lesser of an amount and what is left of `balance` after `due`.
pub open spec fn available(balance: u128, due: u128) -> u128 {
    if balance >= due {
        (balance - due) as u128
    } else {
        0
    }
}

impl StorageView {
    /// Fails unless `sender` owns the contract.
    pub open spec fn owner_only(self, sender: Seq<char>) -> Result<(), ContractError> {
        match self.owner.is_owner(sender) {
            Err(e) => Err(ContractError::Std(e)),
            Ok(false) => Err(ContractError::Unauthorized),
            Ok(true) => Ok(()),
        }
    }

    /// Fails unless `sender` owns the contract or the access controller that
    /// was asked grants it. The controller's answer counts only for one who is
    /// not the owner.
    pub open spec fn owner_or_access(self, sender: Seq<char>, querier: Querier) -> Result<
        (),
        ContractError,
    > {
        match self.owner.is_owner(sender) {
            Err(e) => Err(ContractError::Std(e)),
            Ok(true) => Ok(()),
            Ok(false) => match querier.has_access {
                None => Err(ContractError::Std(StdError::QueryFailed)),
                Some(false) => Err(ContractError::Unauthorized),
                Some(true) => Ok(()),
            },
        }
    }

    /// The reward token tells of tokens it has moved to this contract.
    pub open spec fn receive(self, sender: Seq<char>, from: Seq<char>, amount: u128) -> Result<
        (StorageView, ResponseView),
        ContractError,
    > {
        match self.config {
            None => Err(ContractError::Std(StdError::NotFound)),
            Some(c) => if sender != c.link_token {
                Err(ContractError::Unauthorized)
            } else {
                Ok(
                    (
                        self,
                        ResponseView::new().event(
                            EventView::new("receive_funds"@).attr("sender"@, from).attr(
                                "amount"@,
                                decimal(amount as nat),
                            ),
                        ),
                    ),
                )
            },
        }
    }

    /// The owner names the validator, or none.
    pub open spec fn set_validator_config(
        self,
        sender: Seq<char>,
        validator: Option<ValidatorView>,
    ) -> Result<(StorageView, ResponseView), ContractError> {
        match self.owner_only(sender) {
            Err(e) => Err(e),
            Ok(_) => match self.config {
                None => Err(ContractError::Std(StdError::NotFound)),
                Some(c) => {
                    let first = match c.validator {
                        Some(old) => ResponseView::new().attr("previous_validator"@, old.address).attr(
                            "previous_gas_limit"@,
                            decimal(old.gas_limit as nat),
                        ),
                        None => ResponseView::new(),
                    };
                    let response = match validator {
                        Some(new) => first.attr("new_validator"@, new.address).attr(
                            "new_gas_limit"@,
                            decimal(new.gas_limit as nat),
                        ),
                        None => first,
                    };
                    Ok((StorageView { config: Some(ConfigView { validator, ..c }), ..self }, response))
                },
            },
        }
    }

    /// The owner names the access controller for requests of new rounds.
    pub open spec fn set_requester_access_controller(
        self,
        sender: Seq<char>,
        access_controller: Seq<char>,
    ) -> Result<(StorageView, ResponseView), ContractError> {
        match self.owner_only(sender) {
            Err(e) => Err(e),
            Ok(_) => match self.config {
                None => Err(ContractError::Std(StdError::NotFound)),
                Some(c) => Ok(
                    (
                        StorageView {
                            config: Some(
                                ConfigView { requester_access_controller: access_controller, ..c },
                            ),
                            ..self
                        },
                        ResponseView::new(),
                    ),
                ),
            },
        }
    }

    /// The owner names the access controller for billing.
    pub open spec fn set_billing_access_controller(
        self,
        sender: Seq<char>,
        access_controller: Seq<char>,
    ) -> Result<(StorageView, ResponseView), ContractError> {
        match self.owner_only(sender) {
            Err(e) => Err(e),
            Ok(_) => match self.config {
                None => Err(ContractError::Std(StdError::NotFound)),
                Some(c) => Ok(
                    (
                        StorageView {
                            config: Some(
                                ConfigView { billing_access_controller: access_controller, ..c },
                            ),
                            ..self
                        },
                        ResponseView::new(),
                    ),
                ),
            },
        }
    }

    /// One who may asks the oracles for a new round.
    pub open spec fn request_new_round(self, sender: Seq<char>, querier: Querier) -> Result<
        (StorageView, ResponseView),
        ContractError,
    > {
        match self.config {
            None => Err(ContractError::Std(StdError::NotFound)),
            Some(c) => match self.owner_or_access(sender, querier) {
                Err(e) => Err(e),
                Ok(_) => if c.latest_aggregator_round_id == u32::MAX {
                    Err(ContractError::Overflow)
                } else {
                    Ok(
                        (
                            self,
                            ResponseView::new().event(
                                EventView::new("round_requested"@).attr("requester"@, sender).attr(
                                    "config_digest"@,
                                    hex(c.latest_config_digest),
                                ).attr("round"@, decimal(c.round as nat)).attr(
                                    "epoch"@,
                                    decimal(c.epoch as nat),
                                ),
                            ).attr(
                                "round_id"@,
                                decimal((c.latest_aggregator_round_id + 1) as nat),
                            ),
                        ),
                    )
                },
            },
        }
    }

    /// One who may sets what oracles are paid. The oracles are first paid what
    /// they are owed under the billing in force.
    pub open spec fn set_billing(self, sender: Seq<char>, billing: Billing, querier: Querier)
        -> Result<(StorageView, ResponseView), ContractError> {
        match self.config {
            None => Err(ContractError::Std(StdError::NotFound)),
            Some(c) => match self.owner_or_access(sender, querier) {
                Err(e) => Err(e),
                Ok(_) => match settle(self.transmitters, self.payees, c) {
                    Err(e) => Err(e),
                    Ok(settlement) => Ok(
                        (
                            StorageView {
                                config: Some(ConfigView { billing, ..c }),
                                transmitters: settlement.transmitters,
                                ..self
                            },
                            ResponseView::new().with_messages(settlement.messages).event(
                                EventView::new("set_billing"@).attr(
                                    "recommended_gas_price_micro"@,
                                    decimal(billing.recommended_gas_price_micro.atomics as nat),
                                ).attr(
                                    "observation_payment_gjuels"@,
                                    decimal(billing.observation_payment_gjuels as nat),
                                ),
                            ),
                        ),
                    ),
                },
            },
        }
    }

    /// The owner replaces the reward token. The oracles are paid what they are
    /// owed in the old token, and what is left of it goes to `recipient`.
    pub open spec fn set_link_token(
        self,
        sender: Seq<char>,
        link_token: Seq<char>,
        recipient: Seq<char>,
        querier: Querier,
    ) -> Result<(StorageView, ResponseView), ContractError> {
        match self.owner_only(sender) {
            Err(e) => Err(e),
            Ok(_) => match self.config {
                None => Err(ContractError::Std(StdError::NotFound)),
                Some(c) => if link_token == c.link_token {
                    Ok((self, ResponseView::new()))
                } else if querier.new_token_balance is None || querier.balance is None {
                    // the new contract must answer as a token contract does
                    Err(ContractError::Std(StdError::QueryFailed))
                } else {
                    match settle(self.transmitters, self.payees, c) {
                        Err(e) => Err(e),
                        Ok(settlement) => Ok(
                            (
                                StorageView {
                                    config: Some(ConfigView { link_token, ..c }),
                                    transmitters: settlement.transmitters,
                                    ..self
                                },
                                ResponseView::new().with_messages(settlement.messages).attr(
                                    "method"@,
                                    "set_link_token"@,
                                ).message(
                                    MessageView::Transfer {
                                        token: c.link_token,
                                        recipient,
                                        amount: available(
                                            querier.balance->Some_0,
                                            settlement.total,
                                        ),
                                    },
                                ).event(
                                    EventView::new("set_link_token"@).attr(
                                        "old_link_token"@,
                                        c.link_token,
                                    ).attr("new_link_token"@, link_token),
                                ),
                            ),
                        ),
                    }
                },
            },
        }
    }

    /// One who may takes out funds that no oracle is owed.
    pub open spec fn withdraw_funds(
        self,
        sender: Seq<char>,
        recipient: Seq<char>,
        amount: u128,
        querier: Querier,
    ) -> Result<(StorageView, ResponseView), ContractError> {
        match self.config {
            None => Err(ContractError::Std(StdError::NotFound)),
            Some(c) => match self.owner_or_access(sender, querier) {
                Err(e) => Err(e),
                Ok(_) => match link_due(self.transmitters, c) {
                    None => Err(ContractError::Std(StdError::Overflow)),
                    Some(due) => match querier.balance {
                        None => Err(ContractError::Std(StdError::QueryFailed)),
                        Some(balance) => Ok(
                            (
                                self,
                                ResponseView::new().attr("method"@, "withdraw_funds"@).message(
                                    MessageView::Transfer {
                                        token: c.link_token,
                                        recipient,
                                        amount: if amount <= available(balance, due) {
                                            amount
                                        } else {
                                            available(balance, due)
                                        },
                                    },
                                ),
                            ),
                        ),
                    },
                },
            },
        }
    }
}

/// Fails unless the sender owns the contract.
pub fn owner_only(storage: &Storage, info: &MessageInfo) -> (res: Result<(), ContractError>)
    ensures
        res == storage@.owner_only(info.sender@),
{
    match storage.owner.is_owner(&info.sender) {
        Err(e) => Err(ContractError::Std(e)),
        Ok(false) => Err(ContractError::Unauthorized),
        Ok(true) => Ok(()),
    }
}

/// Fails unless the sender owns the contract or has access.
pub fn owner_or_access(storage: &Storage, info: &MessageInfo, querier: &Querier) -> (res: Result<
    (),
    ContractError,
>)
    ensures
        res == storage@.owner_or_access(info.sender@, *querier),
{
    match storage.owner.is_owner(&info.sender) {
        Err(e) => Err(ContractError::Std(e)),
        Ok(true) => Ok(()),
        Ok(false) => match querier.has_access {
            None => Err(ContractError::Std(StdError::QueryFailed)),
            Some(false) => Err(ContractError::Unauthorized),
            Some(true) => Ok(()),
        },
    }
}

/// Handler for LINK token Receive message
pub fn execute_receive(storage: &mut Storage, _env: Env, info: MessageInfo, msg: Cw20ReceiveMsg) -> (res:
    Result<Response, ContractError>)
    requires
        old(storage)@.wf(),
    ensures
        came_out(
            old(storage)@.receive(info.sender@, msg.sender@, msg.amount),
            res,
            old(storage)@,
            final(storage)@,
        ),
        final(storage)@.wf(),
{
    let config = match &storage.config {
        Some(config) => config,
        None => {
            return Err(ContractError::Std(StdError::NotFound));
        },
    };
    // info.sender is the address of the cw20 contract (that re-sent this message).
    if info.sender != config.link_token {
        return Err(ContractError::Unauthorized);
    }
    Ok(
        Response::new().add_event(
            Event::new("receive_funds").add_attribute("sender", msg.sender).add_attribute(
                "amount",
                u128_to_string(msg.amount),
            ),
        ),
    )
}

/// The owner names the validator, or none.
pub fn execute_set_validator_config(
    storage: &mut Storage,
    _env: Env,
    info: MessageInfo,
    validator: Option<Validator>,
) -> (res: Result<Response, ContractError>)
    requires
        old(storage)@.wf(),
    ensures
        came_out(
            old(storage)@.set_validator_config(
                info.sender@,
                match validator {
                    Some(v) => Some(v@),
                    None => None,
                },
            ),
            res,
            old(storage)@,
            final(storage)@,
        ),
        final(storage)@.wf(),
{
    owner_only(storage, &info)?;
    let config = match &mut storage.config {
        Some(config) => config,
        None => {
            return Err(ContractError::Std(StdError::NotFound));
        },
    };
    // Generate response
    let mut response = Response::new();
    match &config.validator {
        Some(old_validator) => {
            response = response.add_attribute(
                "previous_validator",
                old_validator.address.clone(),
            ).add_attribute("previous_gas_limit", u128_to_string(old_validator.gas_limit as u128));
        },
        None => {},
    }
    match &validator {
        Some(new_validator) => {
            response = response.add_attribute(
                "new_validator",
                new_validator.address.clone(),
            ).add_attribute("new_gas_limit", u128_to_string(new_validator.gas_limit as u128));
        },
        None => {},
    }
    config.validator = validator;
    Ok(response)
}

/// The owner names the access controller for requests of new rounds.
pub fn execute_set_requester_access_controller(
    storage: &mut Storage,
    _env: Env,
    info: MessageInfo,
    access_controller: String,
) -> (res: Result<Response, ContractError>)
    requires
        old(storage)@.wf(),
    ensures
        came_out(
            old(storage)@.set_requester_access_controller(info.sender@, access_controller@),
            res,
            old(storage)@,
            final(storage)@,
        ),
        final(storage)@.wf(),
{
    owner_only(storage, &info)?;
    match &mut storage.config {
        Some(config) => {
            config.requester_access_controller = AccessControllerContract(access_controller);
            Ok(Response::new())
        },
        None => Err(ContractError::Std(StdError::NotFound)),
    }
}

/// The owner names the access controller for billing.
pub fn execute_set_billing_access_controller(
    storage: &mut Storage,
    _env: Env,
    info: MessageInfo,
    access_controller: String,
) -> (res: Result<Response, ContractError>)
    requires
        old(storage)@.wf(),
    ensures
        came_out(
            old(storage)@.set_billing_access_controller(info.sender@, access_controller@),
            res,
            old(storage)@,
            final(storage)@,
        ),
        final(storage)@.wf(),
{
    owner_only(storage, &info)?;
    match &mut storage.config {
        Some(config) => {
            config.billing_access_controller = AccessControllerContract(access_controller);
            Ok(Response::new())
        },
        None => Err(ContractError::Std(StdError::NotFound)),
    }
}

/// One who may asks the oracles for a new round.
pub fn execute_request_new_round(
    storage: &mut Storage,
    _env: Env,
    info: MessageInfo,
    querier: &Querier,
) -> (res: Result<Response, ContractError>)
    requires
        old(storage)@.wf(),
    ensures
        came_out(
            old(storage)@.request_new_round(info.sender@, *querier),
            res,
            old(storage)@,
            final(storage)@,
        ),
        final(storage)@.wf(),
{
    let config = match &storage.config {
        Some(config) => config,
        None => {
            return Err(ContractError::Std(StdError::NotFound));
        },
    };
    owner_or_access(storage, &info, querier)?;
    if config.latest_aggregator_round_id == u32::MAX {
        return Err(ContractError::Overflow);
    }
    Ok(
        Response::new().add_event(
            Event::new("round_requested").add_attribute("requester", info.sender).add_attribute(
                "config_digest",
                hex_encode(config.latest_config_digest.as_slice()),
            ).add_attribute("round", u128_to_string(config.round as u128)).add_attribute(
                "epoch",
                u128_to_string(config.epoch as u128),
            ),
        ).add_attribute(
            "round_id",
            u128_to_string((config.latest_aggregator_round_id + 1) as u128),
        ),
    )
}

/// One who may sets what oracles are paid.
pub fn execute_set_billing(
    storage: &mut Storage,
    _env: Env,
    info: MessageInfo,
    billing_config: Billing,
    querier: &Querier,
) -> (res: Result<Response, ContractError>)
    requires
        old(storage)@.wf(),
    ensures
        came_out(
            old(storage)@.set_billing(info.sender@, billing_config, *querier),
            res,
            old(storage)@,
            final(storage)@,
        ),
        final(storage)@.wf(),
{
    if storage.config.is_none() {
        return Err(ContractError::Std(StdError::NotFound));
    }
    owner_or_access(storage, &info, querier)?;
    let ghost before = storage@;
    let config = match &mut storage.config {
        Some(config) => config,
        None => {
            return Err(ContractError::Std(StdError::NotFound));
        },
    };
    let (_total, response) = pay_oracles(
        &mut storage.transmitters,
        &storage.payees,
        config,
        Response::new(),
    )?;
    proof {
        settled_accounts(before.transmitters, before.payees, before.config->Some_0);
    }
    storage.transmitters.recall_order();
    config.billing = billing_config;
    Ok(
        response.add_event(
            Event::new("set_billing").add_attribute(
                "recommended_gas_price_micro",
                u128_to_string(billing_config.recommended_gas_price_micro.atomics),
            ).add_attribute(
                "observation_payment_gjuels",
                u128_to_string(billing_config.observation_payment_gjuels as u128),
            ),
        ),
    )
}

/// After the committee has been paid, no account counts from a round yet to
/// come, and each transmitter is where it was.
pub proof fn settled_accounts(
    transmitters: Seq<(Seq<char>, crate::ocr2::state::Transmitter)>,
    payees: Seq<(Seq<char>, Seq<char>)>,
    config: ConfigView,
)
    requires
        settle(transmitters, payees, config) is Ok,
        forall|i: int|
            0 <= i < transmitters.len() ==> (#[trigger] transmitters[i]).1.from_round_id
                <= config.latest_aggregator_round_id,
    ensures
        settle(transmitters, payees, config)->Ok_0.transmitters.len() == transmitters.len(),
        forall|i: int|
            0 <= i < transmitters.len() ==> (#[trigger] settle(
                transmitters,
                payees,
                config,
            )->Ok_0.transmitters[i]).1.from_round_id <= config.latest_aggregator_round_id,
        forall|i: int|
            0 <= i < transmitters.len() ==> (#[trigger] settle(
                transmitters,
                payees,
                config,
            )->Ok_0.transmitters[i]).0 == transmitters[i].0,
    decreases transmitters.len(),
{
    if transmitters.len() > 0 {
        settled_accounts(transmitters.drop_last(), payees, config);
        let after = settle(transmitters, payees, config)->Ok_0.transmitters;
        let before = settle(transmitters.drop_last(), payees, config)->Ok_0.transmitters;
        assert forall|i: int| 0 <= i < transmitters.len() implies (#[trigger] after[i]).1.from_round_id
            <= config.latest_aggregator_round_id && after[i].0 == transmitters[i].0 by {
            if i < transmitters.len() - 1 {
                assert(after[i] == before[i]);
                assert(transmitters.drop_last()[i] == transmitters[i]);
            }
        }
    }
}

/// The owner replaces the reward token.
pub fn execute_set_link_token(
    storage: &mut Storage,
    _env: Env,
    info: MessageInfo,
    link_token: String,
    recipient: String,
    querier: &Querier,
) -> (res: Result<Response, ContractError>)
    requires
        old(storage)@.wf(),
    ensures
        came_out(
            old(storage)@.set_link_token(info.sender@, link_token@, recipient@, *querier),
            res,
            old(storage)@,
            final(storage)@,
        ),
        final(storage)@.wf(),
{
    owner_only(storage, &info)?;
    let ghost before = storage@;
    let config = match &mut storage.config {
        Some(config) => config,
        None => {
            return Err(ContractError::Std(StdError::NotFound));
        },
    };
    if link_token == config.link_token {
        return Ok(Response::new());
    }
    // Sanity check new contract is actually a token contract
    if querier.new_token_balance.is_none() {
        return Err(ContractError::Std(StdError::QueryFailed));
    }
    // retrieve current balance
    let balance = match querier.balance {
        Some(balance) => balance,
        None => {
            return Err(ContractError::Std(StdError::QueryFailed));
        },
    };
    let (total, response) = pay_oracles(
        &mut storage.transmitters,
        &storage.payees,
        config,
        Response::new(),
    )?;
    proof {
        settled_accounts(before.transmitters, before.payees, before.config->Some_0);
    }
    storage.transmitters.recall_order();
    // the payment messages are executed after the call terminates
    let remaining_balance: u128 = if balance >= total {
        balance - total
    } else {
        0
    };
    let old_link_token = config.link_token.clone();
    let transfer_msg = Message::Transfer {
        token: old_link_token.clone(),
        recipient,
        amount: remaining_balance,
    };
    let event = Event::new("set_link_token").add_attribute(
        "old_link_token",
        old_link_token,
    ).add_attribute("new_link_token", link_token.clone());
    config.link_token = link_token;
    Ok(
        response.add_attribute("method", "set_link_token".to_owned()).add_message(
            transfer_msg,
        ).add_event(event),
    )
}

/// One who may takes out funds that no oracle is owed.
pub fn execute_withdraw_funds(
    storage: &mut Storage,
    _env: Env,
    info: MessageInfo,
    recipient: String,
    amount: u128,
    querier: &Querier,
) -> (res: Result<Response, ContractError>)
    requires
        old(storage)@.wf(),
    ensures
        came_out(
            old(storage)@.withdraw_funds(info.sender@, recipient@, amount, *querier),
            res,
            old(storage)@,
            final(storage)@,
        ),
        final(storage)@.wf(),
{
    let config = match &storage.config {
        Some(config) => config,
        None => {
            return Err(ContractError::Std(StdError::NotFound));
        },
    };
    owner_or_access(storage, &info, querier)?;
    let link_due = match total_link_due(&storage.transmitters, config) {
        Ok(due) => due,
        Err(e) => {
            return Err(ContractError::Std(e));
        },
    };
    let balance = match querier.balance {
        Some(balance) => balance,
        None => {
            return Err(ContractError::Std(StdError::QueryFailed));
        },
    };
    let available: u128 = if balance >= link_due {
        balance - link_due
    } else {
        0
    };
    let transfer_msg = Message::Transfer {
        token: config.link_token.clone(),
        recipient,
        amount: if amount <= available {
            amount
        } else {
            available
        },
    };
    Ok(
        Response::new().add_attribute("method", "withdraw_funds".to_owned()).add_message(
            transfer_msg,
        ),
    )
}

} // verus!
