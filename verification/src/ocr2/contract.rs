//! The aggregator's entry points: setting it up, carrying a message out,
//! answering a query.

use crate::access_controller::AccessControllerContract;
use crate::bytes::byte_views;
use crate::decimal::Decimal;
use crate::host::{
    came_out, Env, EnvView, Event, EventView, MessageInfo, Querier, Response, ResponseView,
    StdError,
};
use crate::ocr2::config::has_duplicates;
use crate::ocr2::error::ContractError;
use crate::ocr2::msg::{ExecuteMsg, InstantiateMsg, QueryMsg, QueryResponse, QueryResponseView};
use crate::ocr2::payees::pair_views;
use crate::ocr2::state::{Billing, Config, ConfigView, Storage, StorageView, Transmitter};
use crate::owned::{Auth, AuthView, StateView};
use crate::table::Table;
use crate::text::text_views;
use vstd::prelude::*;

pub use crate::ocr2::admin::{
    execute_receive, execute_request_new_round, execute_set_billing,
    execute_set_billing_access_controller, execute_set_link_token,
    execute_set_requester_access_controller, execute_set_validator_config,
    execute_withdraw_funds,
};
pub use crate::ocr2::config::execute_set_config;
pub use crate::ocr2::payees::{
    execute_accept_payeeship, execute_set_payees, execute_transfer_payeeship,
    execute_withdraw_payment, pay_oracle,
};
pub use crate::ocr2::payment::{
    calculate_reimbursement, owed_payment, pay_oracles, total_link_due,
};
pub use crate::ocr2::proposal::{
    execute_accept_proposal, execute_begin_proposal, execute_clear_proposal,
    execute_finalize_proposal, execute_propose_config, execute_propose_offchain_config,
    query_proposal,
};
pub use crate::ocr2::query::{
    query_billing, query_billing_access_controller, query_decimals, query_description,
    query_latest_config_details, query_latest_config_digest_and_epoch, query_latest_round_data,
    query_latest_transmission_details, query_link_available_for_payment, query_link_token,
    query_oracle_observation_count, query_owed_payment, query_requester_access_controller,
    query_round_data, query_transmitters, query_validator_config,
};
pub use crate::ocr2::report::decode_report;
pub use crate::ocr2::transmit::{
    execute_transmit, signature_views, signatures_from, transmit_with_verdict, verification_input,
    well_sized,
};

verus! {

/// The name under which the contract records itself.
pub const CONTRACT_NAME: &'static str = "crates.io:ocr2";

/// The version under which the contract records itself.
pub const CONTRACT_VERSION: &'static str = "1.0.0";

impl StorageView {
    /// The storage of an aggregator that `sender` has just set up.
    pub open spec fn instantiated(self, sender: Seq<char>, msg: InstantiateMsg) -> StorageView {
        StorageView {
            owner: AuthView {
                state: Some(StateView { owner: sender, proposed_owner: None }),
                ..self.owner
            },
            config: Some(
                ConfigView {
                    link_token: msg.link_token@,
                    requester_access_controller: msg.requester_access_controller@,
                    billing_access_controller: msg.billing_access_controller@,
                    min_answer: msg.min_answer,
                    max_answer: msg.max_answer,
                    decimals: msg.decimals,
                    description: msg.description@,
                    f: 0,
                    n: 0,
                    config_count: 0,
                    latest_config_digest: Seq::new(32, |i: int| 0u8),
                    latest_config_block_number: 0,
                    latest_aggregator_round_id: 0,
                    epoch: 0,
                    round: 0,
                    billing: Billing {
                        recommended_gas_price_micro: Decimal { atomics: 0 },
                        observation_payment_gjuels: 0,
                        transmission_payment_gjuels: 0,
                        gas_base: None,
                        gas_per_signature: None,
                        gas_adjustment: None,
                    },
                    validator: None,
                },
            ),
            next_proposal_id: 0,
            proposals: Seq::empty(),
            transmitters: Seq::empty(),
            signers: Seq::empty(),
            transmissions: Seq::empty(),
            payees: Seq::empty(),
            proposed_payees: Seq::empty(),
        }
    }

    /// What a message does to the storage, and the response to it. `verdict`
    /// is what verification said of a report's signatures.
    pub open spec fn executed(
        self,
        env: EnvView,
        sender: Seq<char>,
        msg: ExecuteMsg,
        querier: Querier,
        verdict: Option<bool>,
    ) -> Result<(StorageView, ResponseView), ContractError> {
        match msg {
            ExecuteMsg::SetConfig {
                signers,
                transmitters,
                f,
                onchain_config,
                offchain_config_version,
                offchain_config,
            } => self.set_config(
                env,
                sender,
                byte_views(signers@),
                text_views(transmitters@),
                f,
                onchain_config@,
                offchain_config_version,
                offchain_config@,
            ),
            ExecuteMsg::BeginProposal => self.begin_proposal(sender),
            ExecuteMsg::ClearProposal { id } => self.clear_proposal(sender, id),
            ExecuteMsg::FinalizeProposal { id } => self.finalize_proposal(sender, id),
            ExecuteMsg::AcceptProposal { id, digest } => self.accept_proposal(
                env,
                sender,
                id,
                digest@,
            ),
            ExecuteMsg::ProposeConfig {
                id,
                signers,
                transmitters,
                payees,
                f,
                onchain_config,
            } => self.propose_config(
                sender,
                id,
                byte_views(signers@),
                text_views(transmitters@),
                text_views(payees@),
                f,
                onchain_config@,
            ),
            ExecuteMsg::ProposeOffchainConfig {
                id,
                offchain_config_version,
                offchain_config,
            } => self.propose_offchain_config(
                sender,
                id,
                offchain_config_version,
                offchain_config@,
            ),
            ExecuteMsg::TransferOwnership { to } => match self.owner.transfer_ownership(
                sender,
                to@,
            ) {
                Ok((owner, response)) => Ok((StorageView { owner, ..self }, response)),
                Err(e) => Err(ContractError::OwnedError(e)),
            },
            ExecuteMsg::AcceptOwnership => match self.owner.accept_ownership(sender) {
                Ok((owner, response)) => Ok((StorageView { owner, ..self }, response)),
                Err(e) => Err(ContractError::OwnedError(e)),
            },
            ExecuteMsg::Transmit { report_context, report, signatures } => if !well_sized(
                byte_views(signatures@),
            ) {
                Err(ContractError::InvalidInput)
            } else {
                self.transmit(
                    env.block_time,
                    sender,
                    report_context@,
                    report@,
                    byte_views(signatures@),
                    verdict,
                )
            },
            ExecuteMsg::RequestNewRound => self.request_new_round(sender, querier),
            ExecuteMsg::SetBilling { config } => self.set_billing(sender, config, querier),
            ExecuteMsg::SetValidatorConfig { config } => self.set_validator_config(
                sender,
                match config {
                    Some(v) => Some(v@),
                    None => None,
                },
            ),
            ExecuteMsg::SetBillingAccessController {
                access_controller,
            } => self.set_billing_access_controller(sender, access_controller@),
            ExecuteMsg::SetRequesterAccessController {
                access_controller,
            } => self.set_requester_access_controller(sender, access_controller@),
            ExecuteMsg::SetPayees { payees } => self.set_payees(sender, pair_views(payees@)),
            ExecuteMsg::WithdrawPayment { transmitter } => self.withdraw_payment(
                sender,
                transmitter@,
            ),
            ExecuteMsg::WithdrawFunds { recipient, amount } => self.withdraw_funds(
                sender,
                recipient@,
                amount,
                querier,
            ),
            ExecuteMsg::SetLinkToken { link_token, recipient } => self.set_link_token(
                sender,
                link_token@,
                recipient@,
                querier,
            ),
            ExecuteMsg::Receive(msg) => self.receive(sender, msg.sender@, msg.amount),
            ExecuteMsg::TransferPayeeship { transmitter, proposed } => self.transfer_payeeship(
                sender,
                transmitter@,
                proposed@,
            ),
            ExecuteMsg::AcceptPayeeship { transmitter } => self.accept_payeeship(
                sender,
                transmitter@,
            ),
        }
    }

    /// The answer to a query.
    pub open spec fn answer(self, msg: QueryMsg, querier: Querier) -> Result<
        QueryResponseView,
        StdError,
    > {
        match msg {
            QueryMsg::Transmitters => Ok(
                QueryResponseView::Transmitters(
                    self.transmitters.map_values(|e: (Seq<char>, Transmitter)| e.0),
                ),
            ),
            QueryMsg::LatestTransmissionDetails => match self.latest_transmission_details() {
                Ok(d) => Ok(QueryResponseView::LatestTransmissionDetails(d)),
                Err(e) => Err(e),
            },
            QueryMsg::RoundData { round_id } => match self.round_data(round_id) {
                Ok(r) => Ok(QueryResponseView::RoundData(r)),
                Err(e) => Err(e),
            },
            QueryMsg::LatestRoundData => match self.latest_round_data() {
                Ok(r) => Ok(QueryResponseView::LatestRoundData(r)),
                Err(e) => Err(e),
            },
            QueryMsg::OwedPayment { transmitter } => match self.owed_payment(transmitter@) {
                Ok(a) => Ok(QueryResponseView::OwedPayment(a)),
                Err(e) => Err(e),
            },
            QueryMsg::LinkAvailableForPayment => match self.link_available_for_payment(querier) {
                Ok(a) => Ok(QueryResponseView::LinkAvailableForPayment(a)),
                Err(e) => Err(e),
            },
            QueryMsg::OracleObservationCount { transmitter } => match self.oracle_observation_count(
                transmitter@,
            ) {
                Ok(n) => Ok(QueryResponseView::OracleObservationCount(n)),
                Err(e) => Err(e),
            },
            QueryMsg::Proposal { id } => if self.has_proposal(id) {
                Ok(QueryResponseView::Proposal(self.proposal(id)))
            } else {
                Err(StdError::NotFound)
            },
            QueryMsg::Version => Ok(QueryResponseView::Version(CONTRACT_VERSION@)),
            QueryMsg::Owner => match self.owner.state {
                Some(s) => Ok(QueryResponseView::Owner(s.owner)),
                None => Err(StdError::NotFound),
            },
            _ => match self.config {
                None => Err(StdError::NotFound),
                Some(c) => Ok(
                    match msg {
                        QueryMsg::LatestConfigDetails => QueryResponseView::LatestConfigDetails(
                            (c.config_count, c.latest_config_block_number, c.latest_config_digest),
                        ),
                        QueryMsg::LatestConfigDigestAndEpoch => QueryResponseView::LatestConfigDigestAndEpoch(
                            (false, c.latest_config_digest, c.epoch),
                        ),
                        QueryMsg::Description => QueryResponseView::Description(c.description),
                        QueryMsg::Decimals => QueryResponseView::Decimals(c.decimals),
                        QueryMsg::LinkToken => QueryResponseView::LinkToken(c.link_token),
                        QueryMsg::Billing => QueryResponseView::Billing(c.billing),
                        QueryMsg::BillingAccessController => QueryResponseView::BillingAccessController(
                            c.billing_access_controller,
                        ),
                        _ => QueryResponseView::RequesterAccessController(
                            c.requester_access_controller,
                        ),
                    },
                ),
            },
        }
    }
}

impl Storage {
    /// The storage of a contract that has not been instantiated.
    pub fn new() -> (s: Storage)
        ensures
            s@.wf(),
            s@ == (StorageView {
                owner: AuthView { namespace: "owner"@, state: None },
                config: None,
                next_proposal_id: 0,
                proposals: Seq::empty(),
                transmitters: Seq::empty(),
                signers: Seq::empty(),
                transmissions: Seq::empty(),
                payees: Seq::empty(),
                proposed_payees: Seq::empty(),
            }),
    {
        let s = Storage {
            owner: Auth::new("owner"),
            config: None,
            next_proposal_id: 0,
            proposals: Vec::new(),
            transmitters: Table::new(),
            signers: Vec::new(),
            transmissions: Vec::new(),
            payees: Table::new(),
            proposed_payees: Table::new(),
        };
        assert(s@.signers =~= Seq::empty());
        assert(s@.proposals =~= Seq::empty());
        assert(s@.transmissions =~= Seq::empty());
        s
    }

    /// Whether the storage is one that the contract's calls can have left behind.
    pub fn check(&self) -> (ok: bool)
        ensures
            ok == self@.wf(),
    {
        self.transmitters.recall_order();
        self.payees.recall_order();
        self.proposed_payees.recall_order();
        if has_duplicates(&self.signers) {
            return false;
        }
        assert forall|a: int| 0 <= a < self.proposals@.len() implies self@.proposals[a].0 == (
        #[trigger] self.proposals@[a]).0 by {}
        assert forall|a: int| 0 <= a < self.proposals@.len() implies (
        #[trigger] self@.proposals[a]).0 == self.proposals@[a].0 by {}
        if !distinct_ids(&self.proposals, self.next_proposal_id) {
            return false;
        }
        match &self.config {
            Some(config) => {
                self.transmissions.len() == config.latest_aggregator_round_id as usize
                    && counted_from_past(&self.transmitters, config.latest_aggregator_round_id)
            },
            None => self.transmissions.len() == 0 && self.transmitters.len() == 0,
        }
    }
}

/// Whether no id occurs twice in `proposals`, and each is below `next`.
fn distinct_ids(proposals: &Vec<(u128, crate::ocr2::state::Proposal)>, next: u128) -> (ok: bool)
    ensures
        ok == ((forall|a: int, b: int|
            0 <= a < b < proposals@.len() ==> (#[trigger] proposals@[a]).0 != (
            #[trigger] proposals@[b]).0) && (forall|a: int|
            0 <= a < proposals@.len() ==> (#[trigger] proposals@[a]).0 < next)),
{
    let mut i: usize = 0;
    while i < proposals.len()
        invariant
            i <= proposals@.len(),
            forall|a: int, b: int|
                0 <= a < b < i ==> (#[trigger] proposals@[a]).0 != (#[trigger] proposals@[b]).0,
            forall|a: int| 0 <= a < i ==> (#[trigger] proposals@[a]).0 < next,
        decreases proposals@.len() - i,
    {
        if proposals[i].0 >= next {
            assert(!(proposals@[i as int].0 < next));
            return false;
        }
        let mut j: usize = 0;
        while j < i
            invariant
                j <= i < proposals@.len(),
                forall|a: int| 0 <= a < j ==> (#[trigger] proposals@[a]).0 != proposals@[i as int].0,
            decreases i - j,
        {
            if proposals[j].0 == proposals[i].0 {
                assert(proposals@[j as int].0 == proposals@[i as int].0);
                return false;
            }
            j = j + 1;
        }
        i = i + 1;
    }
    true
}

/// Whether no account counts from a round after `latest`.
fn counted_from_past(transmitters: &Table<Transmitter>, latest: u32) -> (ok: bool)
    ensures
        ok == (forall|a: int|
            0 <= a < transmitters@.len() ==> (#[trigger] transmitters@[a]).1.from_round_id
                <= latest),
{
    let mut k: usize = 0;
    while k < transmitters.len()
        invariant
            k <= transmitters@.len(),
            forall|a: int| 0 <= a < k ==> (#[trigger] transmitters@[a]).1.from_round_id <= latest,
        decreases transmitters@.len() - k,
    {
        if transmitters.value(k).from_round_id > latest {
            assert(!(transmitters@[k as int].1.from_round_id <= latest));
            return false;
        }
        k = k + 1;
    }
    true
}

/// Sets the aggregator up, owned by the sender, with no committee yet.
pub fn instantiate(storage: &mut Storage, _env: Env, info: MessageInfo, msg: InstantiateMsg) -> (res:
    Result<Response, ContractError>)
    ensures
        res is Ok,
        res->Ok_0@ == ResponseView::new().event(
            EventView::new("set_link_token"@).attr("new_link_token"@, msg.link_token@),
        ),
        final(storage)@ == old(storage)@.instantiated(info.sender@, msg),
        final(storage)@.wf(),
{
    let event = Event::new("set_link_token").add_attribute("new_link_token", msg.link_token.clone());
    let _ = storage.owner.initialize(info.sender);
    let digest: [u8; 32] = [0u8; 32];
    assert(digest@ =~= Seq::new(32, |i: int| 0u8));
    let config = Config {
        link_token: msg.link_token,
        requester_access_controller: AccessControllerContract(msg.requester_access_controller),
        billing_access_controller: AccessControllerContract(msg.billing_access_controller),
        min_answer: msg.min_answer,
        max_answer: msg.max_answer,
        // meta
        decimals: msg.decimals,
        description: msg.description,
        // state
        epoch: 0,
        round: 0,
        f: 0,
        n: 0,
        config_count: 0,
        latest_config_block_number: 0,
        latest_config_digest: digest,
        latest_aggregator_round_id: 0,
        billing: Billing {
            recommended_gas_price_micro: Decimal { atomics: 0 },
            observation_payment_gjuels: 0,
            transmission_payment_gjuels: 0,
            gas_base: None,
            gas_per_signature: None,
            gas_adjustment: None,
        },
        validator: None,
    };
    storage.config = Some(config);
    storage.next_proposal_id = 0;
    storage.proposals = Vec::new();
    storage.transmitters = Table::new();
    storage.signers = Vec::new();
    storage.transmissions = Vec::new();
    storage.payees = Table::new();
    storage.proposed_payees = Table::new();
    assert(storage@.signers =~= Seq::empty());
    assert(storage@.proposals =~= Seq::empty());
    assert(storage@.transmissions =~= Seq::empty());
    Ok(Response::new().add_event(event))
}

/// Whether a message stages or installs a committee.
pub open spec fn is_committee_msg(msg: ExecuteMsg) -> bool {
    msg is SetConfig || msg is BeginProposal || msg is ClearProposal || msg is FinalizeProposal
        || msg is AcceptProposal || msg is ProposeConfig || msg is ProposeOffchainConfig
}

/// Whether a message is about payments, payees or funds.
pub open spec fn is_payment_msg(msg: ExecuteMsg) -> bool {
    msg is WithdrawPayment || msg is WithdrawFunds || msg is SetLinkToken || msg is Receive
        || msg is TransferPayeeship || msg is AcceptPayeeship || msg is SetBilling
        || msg is SetPayees
}

/// Carries out a message that stages or installs a committee.
fn execute_committee_msg(storage: &mut Storage, env: Env, info: MessageInfo, msg: ExecuteMsg) -> (res:
    Result<Response, ContractError>)
    requires
        old(storage)@.wf(),
        is_committee_msg(msg),
    ensures
        forall|querier: Querier, verdict: Option<bool>|
            came_out(
                #[trigger] old(storage)@.executed(env@, info.sender@, msg, querier, verdict),
                res,
                old(storage)@,
                final(storage)@,
            ),
        final(storage)@.wf(),
{
    match msg {
        ExecuteMsg::SetConfig {
            signers,
            transmitters,
            f,
            onchain_config,
            offchain_config_version,
            offchain_config,
        } => execute_set_config(
            storage,
            env,
            info,
            signers,
            transmitters,
            f,
            onchain_config,
            offchain_config_version,
            offchain_config,
        ),
        ExecuteMsg::BeginProposal => execute_begin_proposal(storage, env, info),
        ExecuteMsg::ClearProposal { id } => execute_clear_proposal(storage, env, info, id),
        ExecuteMsg::FinalizeProposal { id } => execute_finalize_proposal(storage, env, info, id),
        ExecuteMsg::AcceptProposal { id, digest } => execute_accept_proposal(
            storage,
            env,
            info,
            id,
            digest,
        ),
        ExecuteMsg::ProposeConfig {
            id,
            signers,
            transmitters,
            payees,
            f,
            onchain_config,
        } => execute_propose_config(
            storage,
            env,
            info,
            id,
            signers,
            transmitters,
            payees,
            f,
            onchain_config,
        ),
        ExecuteMsg::ProposeOffchainConfig {
            id,
            offchain_config_version,
            offchain_config,
        } => execute_propose_offchain_config(
            storage,
            env,
            info,
            id,
            offchain_config_version,
            offchain_config,
        ),
        _ => Err(ContractError::InvalidInput),
    }
}

/// Carries out a message about payments, payees or funds.
fn execute_payment_msg(
    storage: &mut Storage,
    env: Env,
    info: MessageInfo,
    msg: ExecuteMsg,
    querier: &Querier,
) -> (res: Result<Response, ContractError>)
    requires
        old(storage)@.wf(),
        is_payment_msg(msg),
    ensures
        forall|verdict: Option<bool>|
            came_out(
                #[trigger] old(storage)@.executed(env@, info.sender@, msg, *querier, verdict),
                res,
                old(storage)@,
                final(storage)@,
            ),
        final(storage)@.wf(),
{
    match msg {
        ExecuteMsg::SetBilling { config } => execute_set_billing(
            storage,
            env,
            info,
            config,
            querier,
        ),
        ExecuteMsg::SetPayees { payees } => execute_set_payees(storage, env, info, payees),
        ExecuteMsg::WithdrawPayment { transmitter } => execute_withdraw_payment(
            storage,
            env,
            info,
            transmitter,
        ),
        ExecuteMsg::WithdrawFunds { recipient, amount } => execute_withdraw_funds(
            storage,
            env,
            info,
            recipient,
            amount,
            querier,
        ),
        ExecuteMsg::SetLinkToken { link_token, recipient } => execute_set_link_token(
            storage,
            env,
            info,
            link_token,
            recipient,
            querier,
        ),
        ExecuteMsg::Receive(received) => execute_receive(storage, env, info, received),
        ExecuteMsg::TransferPayeeship { transmitter, proposed } => execute_transfer_payeeship(
            storage,
            env,
            info,
            transmitter,
            proposed,
        ),
        ExecuteMsg::AcceptPayeeship { transmitter } => execute_accept_payeeship(
            storage,
            env,
            info,
            transmitter,
        ),
        _ => Err(ContractError::InvalidInput),
    }
}

/// Carries out a message of the owner's, of access, or a request for a round.
fn execute_office_msg(
    storage: &mut Storage,
    env: Env,
    info: MessageInfo,
    msg: ExecuteMsg,
    querier: &Querier,
) -> (res: Result<Response, ContractError>)
    requires
        old(storage)@.wf(),
        !is_committee_msg(msg),
        !is_payment_msg(msg),
        !(msg is Transmit),
    ensures
        forall|verdict: Option<bool>|
            came_out(
                #[trigger] old(storage)@.executed(env@, info.sender@, msg, *querier, verdict),
                res,
                old(storage)@,
                final(storage)@,
            ),
        final(storage)@.wf(),
{
    match msg {
        ExecuteMsg::TransferOwnership { to } => {
            match storage.owner.execute_transfer_ownership(info, to) {
                Ok(response) => Ok(response),
                Err(e) => Err(ContractError::OwnedError(e)),
            }
        },
        ExecuteMsg::AcceptOwnership => {
            match storage.owner.execute_accept_ownership(info) {
                Ok(response) => Ok(response),
                Err(e) => Err(ContractError::OwnedError(e)),
            }
        },
        ExecuteMsg::RequestNewRound => execute_request_new_round(storage, env, info, querier),
        ExecuteMsg::SetValidatorConfig { config } => execute_set_validator_config(
            storage,
            env,
            info,
            config,
        ),
        ExecuteMsg::SetBillingAccessController {
            access_controller,
        } => execute_set_billing_access_controller(storage, env, info, access_controller),
        ExecuteMsg::SetRequesterAccessController {
            access_controller,
        } => execute_set_requester_access_controller(storage, env, info, access_controller),
        _ => Err(ContractError::InvalidInput),
    }
}

/// The kind of a message.
fn kind(msg: &ExecuteMsg) -> (k: u8)
    ensures
        k == if is_committee_msg(*msg) {
            0u8
        } else if is_payment_msg(*msg) {
            1u8
        } else if *msg is Transmit {
            2u8
        } else {
            3u8
        },
{
    match msg {
        ExecuteMsg::SetConfig { .. } => 0,
        ExecuteMsg::BeginProposal => 0,
        ExecuteMsg::ClearProposal { .. } => 0,
        ExecuteMsg::FinalizeProposal { .. } => 0,
        ExecuteMsg::AcceptProposal { .. } => 0,
        ExecuteMsg::ProposeConfig { .. } => 0,
        ExecuteMsg::ProposeOffchainConfig { .. } => 0,
        ExecuteMsg::SetBilling { .. } => 1,
        ExecuteMsg::SetPayees { .. } => 1,
        ExecuteMsg::WithdrawPayment { .. } => 1,
        ExecuteMsg::WithdrawFunds { .. } => 1,
        ExecuteMsg::SetLinkToken { .. } => 1,
        ExecuteMsg::Receive(_) => 1,
        ExecuteMsg::TransferPayeeship { .. } => 1,
        ExecuteMsg::AcceptPayeeship { .. } => 1,
        ExecuteMsg::Transmit { .. } => 2,
        _ => 3,
    }
}

/// Carries a message out. The answers of other contracts that the message
/// depends on are in `querier`.
pub fn execute(
    storage: &mut Storage,
    env: Env,
    info: MessageInfo,
    msg: ExecuteMsg,
    querier: &Querier,
) -> (res: Result<Response, ContractError>)
    requires
        old(storage)@.wf(),
    ensures
        exists|verdict: Option<bool>|
            came_out(
                #[trigger] old(storage)@.executed(env@, info.sender@, msg, *querier, verdict),
                res,
                old(storage)@,
                final(storage)@,
            ),
        !(msg is Transmit) ==> came_out(
            old(storage)@.executed(env@, info.sender@, msg, *querier, None),
            res,
            old(storage)@,
            final(storage)@,
        ),
        final(storage)@.wf(),
{
    let ghost before = storage@;
    let ghost e = env@;
    let ghost sender = info.sender@;
    let k = kind(&msg);
    if k == 0 {
        let res = execute_committee_msg(storage, env, info, msg);
        assert(came_out(before.executed(e, sender, msg, *querier, None), res, before, storage@));
        res
    } else if k == 1 {
        let res = execute_payment_msg(storage, env, info, msg, querier);
        assert(came_out(before.executed(e, sender, msg, *querier, None), res, before, storage@));
        res
    } else if k == 2 {
        match msg {
            ExecuteMsg::Transmit { report_context, report, signatures } => {
                // A signature of another length makes the message invalid
                let ghost raw = byte_views(signatures@);
                let sized = match signatures_from(&signatures) {
                    Ok(sized) => sized,
                    Err(error) => {
                        let res: Result<Response, ContractError> = Err(error);
                        assert(came_out(
                            before.executed(e, sender, msg, *querier, None),
                            res,
                            before,
                            storage@,
                        ));
                        return res;
                    },
                };
                assert(signature_views(sized@) == raw);
                let res = execute_transmit(storage, env, info, report_context, report, sized);
                proof {
                    let verdict = choose|verdict: Option<bool>|
                        came_out(
                            #[trigger] before.transmit(
                                e.block_time,
                                sender,
                                report_context@,
                                report@,
                                raw,
                                verdict,
                            ),
                            res,
                            before,
                            storage@,
                        );
                    assert(came_out(
                        before.executed(e, sender, msg, *querier, verdict),
                        res,
                        before,
                        storage@,
                    ));
                }
                res
            },
            _ => Err(ContractError::InvalidInput),
        }
    } else {
        let res = execute_office_msg(storage, env, info, msg, querier);
        assert(came_out(before.executed(e, sender, msg, *querier, None), res, before, storage@));
        res
    }
}

/// Answers a query.
pub fn query(storage: &Storage, env: Env, msg: QueryMsg, querier: &Querier) -> (res: Result<
    QueryResponse,
    StdError,
>)
    requires
        storage@.wf(),
    ensures
        match storage@.answer(msg, *querier) {
            Ok(answer) => res is Ok && res->Ok_0@ == answer,
            Err(e) => res == Err::<QueryResponse, StdError>(e),
        },
{
    match msg {
        QueryMsg::LatestConfigDetails => Ok(
            QueryResponse::LatestConfigDetails(query_latest_config_details(storage)?),
        ),
        QueryMsg::Transmitters => Ok(QueryResponse::Transmitters(query_transmitters(storage)?)),
        QueryMsg::LatestConfigDigestAndEpoch => Ok(
            QueryResponse::LatestConfigDigestAndEpoch(query_latest_config_digest_and_epoch(storage)?),
        ),
        QueryMsg::LatestTransmissionDetails => Ok(
            QueryResponse::LatestTransmissionDetails(query_latest_transmission_details(storage)?),
        ),
        // v3
        QueryMsg::Description => Ok(QueryResponse::Description(query_description(storage)?)),
        QueryMsg::Decimals => Ok(QueryResponse::Decimals(query_decimals(storage)?)),
        QueryMsg::RoundData { round_id } => Ok(
            QueryResponse::RoundData(query_round_data(storage, round_id)?),
        ),
        QueryMsg::LatestRoundData => Ok(
            QueryResponse::LatestRoundData(query_latest_round_data(storage)?),
        ),
        QueryMsg::LinkToken => Ok(QueryResponse::LinkToken(query_link_token(storage)?)),
        QueryMsg::Billing => Ok(QueryResponse::Billing(query_billing(storage)?)),
        QueryMsg::BillingAccessController => Ok(
            QueryResponse::BillingAccessController(query_billing_access_controller(storage)?),
        ),
        QueryMsg::RequesterAccessController => Ok(
            QueryResponse::RequesterAccessController(query_requester_access_controller(storage)?),
        ),
        QueryMsg::OwedPayment { transmitter } => Ok(
            QueryResponse::OwedPayment(query_owed_payment(storage, transmitter)?),
        ),
        QueryMsg::LinkAvailableForPayment => Ok(
            QueryResponse::LinkAvailableForPayment(
                query_link_available_for_payment(storage, env, querier)?,
            ),
        ),
        QueryMsg::OracleObservationCount { transmitter } => Ok(
            QueryResponse::OracleObservationCount(
                query_oracle_observation_count(storage, transmitter)?,
            ),
        ),
        QueryMsg::Proposal { id } => Ok(QueryResponse::Proposal(query_proposal(storage, id)?)),
        QueryMsg::Version => Ok(QueryResponse::Version(CONTRACT_VERSION.to_owned())),
        QueryMsg::Owner => Ok(QueryResponse::Owner(storage.owner.query_owner()?)),
    }
}

} // verus!
