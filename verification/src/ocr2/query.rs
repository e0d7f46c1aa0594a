//! What the aggregator answers to those who read it.

use crate::host::{Env, Querier, StdError};
use crate::ocr2::msg::{
    LatestConfigDetailsResponse, LatestConfigDigestAndEpochResponse,
    LatestTransmissionDetailsResponse, LinkAvailableForPaymentResponse, TransmittersResponse,
};
use crate::ocr2::payment::{link_due, owed, owed_payment, total_link_due};
use crate::ocr2::state::{Billing, Round, Storage, StorageView, Transmitter, Validator};
use crate::table::{has_key, index_of, value_of};
use crate::text::text_views;
use vstd::prelude::*;

verus! {

impl StorageView {
    /// The round `round_id`, if it has taken place.
    pub open spec fn round_data(self, round_id: u32) -> Result<Round, StdError> {
        if 1 <= round_id <= self.transmissions.len() {
            Ok(
                Round {
                    round_id,
                    answer: self.transmissions[round_id - 1].answer,
                    observations_timestamp: self.transmissions[round_id - 1].observations_timestamp,
                    transmission_timestamp: self.transmissions[round_id - 1].transmission_timestamp,
                },
            )
        } else {
            Err(StdError::NotFound)
        }
    }

    /// The latest round.
    pub open spec fn latest_round_data(self) -> Result<Round, StdError> {
        match self.config {
            None => Err(StdError::NotFound),
            Some(c) => self.round_data(c.latest_aggregator_round_id),
        }
    }

    /// The digest of the configuration in force, the epoch and round of the
    /// latest report, and the latest answer with its time.
    pub open spec fn latest_transmission_details(self) -> Result<
        (Seq<u8>, u32, u8, i128, u32),
        StdError,
    > {
        match self.latest_round_data() {
            Err(e) => Err(e),
            Ok(r) => Ok(
                (
                    self.config->Some_0.latest_config_digest,
                    self.config->Some_0.epoch,
                    self.config->Some_0.round,
                    r.answer,
                    r.transmission_timestamp,
                ),
            ),
        }
    }

    /// The juels that `transmitter` is owed.
    pub open spec fn owed_payment(self, transmitter: Seq<char>) -> Result<u128, StdError> {
        if !has_key(self.transmitters, transmitter) {
            Err(StdError::NotFound)
        } else {
            match self.config {
                None => Err(StdError::NotFound),
                Some(c) => match owed(c, value_of(self.transmitters, transmitter)) {
                    Some(amount) => Ok(amount),
                    None => Err(StdError::Overflow),
                },
            }
        }
    }

    /// The rounds for which `transmitter` is yet to be paid.
    pub open spec fn oracle_observation_count(self, transmitter: Seq<char>) -> Result<
        u32,
        StdError,
    > {
        if !has_key(self.transmitters, transmitter) {
            Err(StdError::NotFound)
        } else {
            match self.config {
                None => Err(StdError::NotFound),
                Some(c) => Ok(
                    (c.latest_aggregator_round_id - value_of(
                        self.transmitters,
                        transmitter,
                    ).from_round_id) as u32,
                ),
            }
        }
    }

    /// The contract's balance less what the oracles are owed; negative where
    /// they are owed more than it holds.
    pub open spec fn link_available_for_payment(self, querier: Querier) -> Result<
        LinkAvailableForPaymentResponse,
        StdError,
    > {
        match self.config {
            None => Err(StdError::NotFound),
            Some(c) => match querier.balance {
                None => Err(StdError::QueryFailed),
                Some(balance) => match link_due(self.transmitters, c) {
                    None => Err(StdError::Overflow),
                    Some(due) => if balance - due > i128::MAX || balance - due < -i128::MAX {
                        Err(StdError::ConversionOverflow)
                    } else {
                        Ok(LinkAvailableForPaymentResponse { amount: (balance - due) as i128 })
                    },
                },
            },
        }
    }
}

/// The configuration in force: its count, the block that it was set in, and its digest.
pub fn query_latest_config_details(storage: &Storage) -> (res: Result<
    LatestConfigDetailsResponse,
    StdError,
>)
    ensures
        match storage@.config {
            Some(c) => res is Ok && res->Ok_0@ == (
                c.config_count,
                c.latest_config_block_number,
                c.latest_config_digest,
            ),
            None => res == Err::<LatestConfigDetailsResponse, StdError>(StdError::NotFound),
        },
{
    match &storage.config {
        Some(config) => Ok(
            LatestConfigDetailsResponse {
                config_count: config.config_count,
                block_number: config.latest_config_block_number,
                config_digest: config.latest_config_digest,
            },
        ),
        None => Err(StdError::NotFound),
    }
}

/// The transmitters of the committee in office, in the order of their addresses.
pub fn query_transmitters(storage: &Storage) -> (res: Result<TransmittersResponse, StdError>)
    ensures
        res is Ok,
        res->Ok_0@ == storage@.transmitters.map_values(
            |e: (Seq<char>, Transmitter)| e.0,
        ),
{
    let addresses = storage.transmitters.keys();
    assert(text_views(addresses@) =~= storage@.transmitters.map_values(
        |e: (Seq<char>, Transmitter)| e.0,
    ));
    Ok(TransmittersResponse { addresses })
}

/// The validator, if one is named.
pub fn query_validator_config(storage: &Storage) -> (res: Result<Option<Validator>, StdError>)
    ensures
        match storage@.config {
            Some(c) => res is Ok && match c.validator {
                Some(v) => res->Ok_0 is Some && res->Ok_0->Some_0@ == v,
                None => res->Ok_0 is None,
            },
            None => res == Err::<Option<Validator>, StdError>(StdError::NotFound),
        },
{
    match &storage.config {
        Some(config) => match &config.validator {
            Some(v) => Ok(Some(Validator { address: v.address.clone(), gas_limit: v.gas_limit })),
            None => Ok(None),
        },
        None => Err(StdError::NotFound),
    }
}

/// The access controller for requests of new rounds.
pub fn query_requester_access_controller(storage: &Storage) -> (res: Result<String, StdError>)
    ensures
        match storage@.config {
            Some(c) => res is Ok && res->Ok_0@ == c.requester_access_controller,
            None => res == Err::<String, StdError>(StdError::NotFound),
        },
{
    match &storage.config {
        Some(config) => Ok(config.requester_access_controller.addr()),
        None => Err(StdError::NotFound),
    }
}

/// The latest report: the digest it was made under, its epoch and round, its answer and time.
pub fn query_latest_transmission_details(storage: &Storage) -> (res: Result<
    LatestTransmissionDetailsResponse,
    StdError,
>)
    requires
        storage@.wf(),
    ensures
        match storage@.latest_transmission_details() {
            Ok(details) => res is Ok && res->Ok_0@ == details,
            Err(e) => res == Err::<LatestTransmissionDetailsResponse, StdError>(e),
        },
{
    let config = match &storage.config {
        Some(config) => config,
        None => {
            return Err(StdError::NotFound);
        },
    };
    if config.latest_aggregator_round_id == 0 {
        return Err(StdError::NotFound);
    }
    let transmission = storage.transmissions[config.latest_aggregator_round_id as usize - 1];
    Ok(
        LatestTransmissionDetailsResponse {
            latest_config_digest: config.latest_config_digest,
            epoch: config.epoch,
            round: config.round,
            latest_answer: transmission.answer,
            latest_timestamp: transmission.transmission_timestamp,
        },
    )
}

/// The digest of the configuration in force and the epoch of the latest report.
pub fn query_latest_config_digest_and_epoch(storage: &Storage) -> (res: Result<
    LatestConfigDigestAndEpochResponse,
    StdError,
>)
    ensures
        match storage@.config {
            Some(c) => res is Ok && res->Ok_0@ == (false, c.latest_config_digest, c.epoch),
            None => res == Err::<LatestConfigDigestAndEpochResponse, StdError>(StdError::NotFound),
        },
{
    match &storage.config {
        Some(config) => Ok(
            LatestConfigDigestAndEpochResponse {
                scan_logs: false,
                config_digest: config.latest_config_digest,
                epoch: config.epoch,
            },
        ),
        None => Err(StdError::NotFound),
    }
}

/// What the aggregator reports on.
pub fn query_description(storage: &Storage) -> (res: Result<String, StdError>)
    ensures
        match storage@.config {
            Some(c) => res is Ok && res->Ok_0@ == c.description,
            None => res == Err::<String, StdError>(StdError::NotFound),
        },
{
    match &storage.config {
        Some(config) => Ok(config.description.clone()),
        None => Err(StdError::NotFound),
    }
}

/// The decimal places of the answers.
pub fn query_decimals(storage: &Storage) -> (res: Result<u8, StdError>)
    ensures
        res == match storage@.config {
            Some(c) => Ok::<u8, StdError>(c.decimals),
            None => Err(StdError::NotFound),
        },
{
    match &storage.config {
        Some(config) => Ok(config.decimals),
        None => Err(StdError::NotFound),
    }
}

/// The round `round_id`, if it has taken place.
pub fn query_round_data(storage: &Storage, round_id: u32) -> (res: Result<Round, StdError>)
    ensures
        res == storage@.round_data(round_id),
{
    if round_id == 0 || round_id as usize > storage.transmissions.len() {
        return Err(StdError::NotFound);
    }
    let transmission = storage.transmissions[round_id as usize - 1];
    Ok(
        Round {
            round_id,
            answer: transmission.answer,
            observations_timestamp: transmission.observations_timestamp,
            transmission_timestamp: transmission.transmission_timestamp,
        },
    )
}

/// The latest round.
pub fn query_latest_round_data(storage: &Storage) -> (res: Result<Round, StdError>)
    ensures
        res == storage@.latest_round_data(),
{
    match &storage.config {
        Some(config) => query_round_data(storage, config.latest_aggregator_round_id),
        None => Err(StdError::NotFound),
    }
}

/// The reward token in use.
pub fn query_link_token(storage: &Storage) -> (res: Result<String, StdError>)
    ensures
        match storage@.config {
            Some(c) => res is Ok && res->Ok_0@ == c.link_token,
            None => res == Err::<String, StdError>(StdError::NotFound),
        },
{
    match &storage.config {
        Some(config) => Ok(config.link_token.clone()),
        None => Err(StdError::NotFound),
    }
}

/// The access controller for billing.
pub fn query_billing_access_controller(storage: &Storage) -> (res: Result<String, StdError>)
    ensures
        match storage@.config {
            Some(c) => res is Ok && res->Ok_0@ == c.billing_access_controller,
            None => res == Err::<String, StdError>(StdError::NotFound),
        },
{
    match &storage.config {
        Some(config) => Ok(config.billing_access_controller.addr()),
        None => Err(StdError::NotFound),
    }
}

/// What oracles are paid.
pub fn query_billing(storage: &Storage) -> (res: Result<Billing, StdError>)
    ensures
        res == match storage@.config {
            Some(c) => Ok::<Billing, StdError>(c.billing),
            None => Err(StdError::NotFound),
        },
{
    match &storage.config {
        Some(config) => Ok(config.billing),
        None => Err(StdError::NotFound),
    }
}

/// The juels that `transmitter` is owed.
pub fn query_owed_payment(storage: &Storage, transmitter: String) -> (res: Result<u128, StdError>)
    requires
        storage@.wf(),
    ensures
        res == storage@.owed_payment(transmitter@),
{
    let state: Transmitter = match storage.transmitters.get(transmitter.as_str()) {
        Some(state) => *state,
        None => {
            return Err(StdError::NotFound);
        },
    };
    proof {
        let i = index_of(storage@.transmitters, transmitter@);
        assert(storage@.transmitters[i].1 == state);
    }
    match &storage.config {
        Some(config) => owed_payment(config, &state),
        None => Err(StdError::NotFound),
    }
}

/// The contract's balance less what the oracles are owed.
pub fn query_link_available_for_payment(storage: &Storage, _env: Env, querier: &Querier) -> (res:
    Result<LinkAvailableForPaymentResponse, StdError>)
    requires
        storage@.wf(),
    ensures
        res == storage@.link_available_for_payment(*querier),
{
    let config = match &storage.config {
        Some(config) => config,
        None => {
            return Err(StdError::NotFound);
        },
    };
    let balance = match querier.balance {
        Some(balance) => balance,
        None => {
            return Err(StdError::QueryFailed);
        },
    };
    let link_due = total_link_due(&storage.transmitters, config)?;
    let amount: i128 = if balance > link_due {
        let abs: u128 = balance - link_due;
        if abs > i128::MAX as u128 {
            return Err(StdError::ConversionOverflow);
        }
        abs as i128
    } else {
        let abs: u128 = link_due - balance;
        if abs > i128::MAX as u128 {
            return Err(StdError::ConversionOverflow);
        }
        -(abs as i128)
    };
    Ok(LinkAvailableForPaymentResponse { amount })
}

/// The rounds for which `transmitter` is yet to be paid.
pub fn query_oracle_observation_count(storage: &Storage, transmitter: String) -> (res: Result<
    u32,
    StdError,
>)
    requires
        storage@.wf(),
    ensures
        res == storage@.oracle_observation_count(transmitter@),
{
    let state: Transmitter = match storage.transmitters.get(transmitter.as_str()) {
        Some(state) => *state,
        None => {
            return Err(StdError::NotFound);
        },
    };
    proof {
        let i = index_of(storage@.transmitters, transmitter@);
        assert(storage@.transmitters[i].1 == state);
    }
    match &storage.config {
        Some(config) => Ok(config.latest_aggregator_round_id - state.from_round_id),
        None => Err(StdError::NotFound),
    }
}

} // verus!
