//! The proxy: it stands in front of one aggregator after another, and tags each
//! round with the phase of the aggregator that produced it, so that rounds of
//! earlier aggregators can still be asked for.

pub mod msg;
pub mod state;

use crate::host::{
    came_out, contract_version, ContractVersion, Env, Event, EventView, MessageInfo, Response,
    ResponseView, StdError,
};
use crate::owned::{Auth, AuthView, Error};
use crate::proxy_ocr2::msg::{
    AggregatorAnswer, AggregatorQuery, ExecuteMsg, InstantiateMsg, QueryMsg, QueryResponse,
};
use crate::proxy_ocr2::state::Round;
use vstd::prelude::*;

verus! {

/// Why a message was refused.
#[derive(Clone, Debug, PartialEq, Eq)]
pub enum ContractError {
    Std(StdError),
    Owned(Error),
    Unauthorized,
    Invalid,
    CannotMigrate { previous_contract: String },
}

/// A phase: its number and the contract in office during it.
#[derive(Clone, Debug, PartialEq, Eq)]
pub struct Phase {
    pub id: u16,
    pub contract_address: String,
}

impl View for Phase {
    type V = (u16, Seq<char>);

    open spec fn view(&self) -> (u16, Seq<char>) {
        (self.id, self.contract_address@)
    }
}

/// The name under which the contract records itself.
pub const CONTRACT_NAME: &'static str = "crates.io:proxy-ocr2";

/// The version under which the contract records itself.
pub const CONTRACT_VERSION: &'static str = "1.0.0";

/// What the proxy keeps between calls.
#[derive(Clone, Debug, PartialEq, Eq)]
pub struct Storage {
    pub version: Option<ContractVersion>,
    pub owner: Auth,
    pub current_phase: Option<Phase>,
    pub proposed_contract: Option<String>,
    /// The aggregator of each phase, from the first on.
    pub phases: Vec<Phase>,
}

/// `Storage` as contracts speak of it: each text as its characters, each byte string as
/// its bytes.
pub ghost struct StorageView {
    pub version: Option<(Seq<char>, Seq<char>)>,
    pub owner: AuthView,
    pub current_phase: Option<(u16, Seq<char>)>,
    pub proposed_contract: Option<Seq<char>>,
    pub phases: Seq<(u16, Seq<char>)>,
}

/// The views of a list of phases.
pub open spec fn phase_views(list: Seq<Phase>) -> Seq<(u16, Seq<char>)> {
    list.map_values(|p: Phase| p@)
}

impl View for Storage {
    type V = StorageView;

    open spec fn view(&self) -> StorageView {
        StorageView {
            version: match self.version {
                Some(v) => Some(v@),
                None => None,
            },
            owner: self.owner@,
            current_phase: match self.current_phase {
                Some(p) => Some(p@),
                None => None,
            },
            proposed_contract: match self.proposed_contract {
                Some(p) => Some(p@),
                None => None,
            },
            phases: phase_views(self.phases@),
        }
    }
}

/// The round id that tags the round `round_id` with the phase `phase_id`.
pub open spec fn tagged(phase_id: u16, round_id: u32) -> u64 {
    (phase_id * 0x1_0000_0000 + round_id) as u64
}

/// The phase and the round that a round id holds.
pub open spec fn parsed(round_id: u64) -> (u16, u32) {
    (((round_id / 0x1_0000_0000) % 0x1_0000) as u16, (round_id % 0x1_0000_0000) as u32)
}

/// Splitting a tagged round id gives back the phase and the round.
pub proof fn lemma_parse_tagged(phase_id: u16, round_id: u32)
    ensures
        parsed(tagged(phase_id, round_id)) == (phase_id, round_id),
{
}

/// The phase and the round that a round id holds.
pub fn parse_round_id(round_id: u64) -> (res: (u16, u32))
    ensures
        res == parsed(round_id),
{
    let phase_id: u16 = ((round_id / 0x1_0000_0000) % 0x1_0000) as u16;
    let round_id: u32 = (round_id % 0x1_0000_0000) as u32;  // truncate higher bits
    (phase_id, round_id)
}

/// The round `round` of an aggregator, its number tagged with `phase_id`.
pub fn with_phase_id(round: crate::ocr2::state::Round, phase_id: u16) -> (res: Round)
    ensures
        res == (Round {
            round_id: tagged(phase_id, round.round_id),
            answer: round.answer,
            observations_timestamp: round.observations_timestamp,
            transmission_timestamp: round.transmission_timestamp,
        }),
{
    let round_id: u64 = (phase_id as u64) * 0x1_0000_0000 + (round.round_id as u64);
    Round {
        round_id,
        answer: round.answer,
        observations_timestamp: round.observations_timestamp,
        transmission_timestamp: round.transmission_timestamp,
    }
}

/// What a query comes to: an answer from the proxy's own storage, or a query
/// to hand on to an aggregator, whose answer `answer` then turns into the
/// proxy's.
#[derive(Clone, Debug, PartialEq, Eq)]
pub enum Route {
    /// The answer is this address.
    Address(String),
    /// The answer is this phase.
    PhaseId(u16),
    /// Ask the aggregator at `contract`; where `phase_id` is given, tag the
    /// round that it answers with.
    Ask { contract: String, query: AggregatorQuery, phase_id: Option<u16> },
}

/// `Route` as contracts speak of it: each text as its characters, each byte string as
/// its bytes.
pub ghost enum RouteView {
    Address(Seq<char>),
    PhaseId(u16),
    Ask { contract: Seq<char>, query: AggregatorQuery, phase_id: Option<u16> },
}

impl StorageView {
    /// The storage is one that the contract's calls can have left behind: the
    /// phases are numbered from 1 on without a gap, and the last is the one in
    /// office.
    pub open spec fn wf(self) -> bool {
        &&& forall|i: int| 0 <= i < self.phases.len() ==> (#[trigger] self.phases[i]).0 == i + 1
        &&& match self.current_phase {
            Some(p) => self.phases.len() >= 1 && self.phases.last() == p,
            None => self.phases.len() == 0,
        }
    }

    /// The storage after an instantiation by `sender` in front of `contract`.
    pub open spec fn instantiated(self, sender: Seq<char>, contract: Seq<char>) -> StorageView {
        StorageView {
            version: Some((CONTRACT_NAME@, CONTRACT_VERSION@)),
            owner: AuthView {
                state: Some(crate::owned::StateView { owner: sender, proposed_owner: None }),
                ..self.owner
            },
            current_phase: Some((1u16, contract)),
            proposed_contract: None,
            phases: seq![(1u16, contract)],
        }
    }

    /// Fails unless `sender` owns the contract.
    pub open spec fn validate_ownership(self, sender: Seq<char>) -> Result<(), ContractError> {
        match self.owner.is_owner(sender) {
            Err(e) => Err(ContractError::Std(e)),
            Ok(false) => Err(ContractError::Unauthorized),
            Ok(true) => Ok(()),
        }
    }

    /// The aggregator of the phase `phase_id`.
    pub open spec fn phase_aggregator(self, phase_id: u16) -> Option<Seq<char>> {
        if 1 <= phase_id <= self.phases.len() {
            Some(self.phases[phase_id - 1].1)
        } else {
            None
        }
    }

    /// The owner proposes the aggregator at `address` as the next.
    pub open spec fn propose_contract(self, sender: Seq<char>, address: Seq<char>) -> Result<
        (StorageView, ResponseView),
        ContractError,
    > {
        match self.validate_ownership(sender) {
            Err(e) => Err(e),
            Ok(_) => match self.current_phase {
                None => Err(ContractError::Std(StdError::NotFound)),
                Some(current) => Ok(
                    (
                        StorageView { proposed_contract: Some(address), ..self },
                        ResponseView::new().event(
                            EventView::new("propose_contract"@).attr(
                                "current_address"@,
                                current.1,
                            ).attr("proposed_address"@, address),
                        ),
                    ),
                ),
            },
        }
    }

    /// The owner confirms the proposed aggregator: a new phase begins with it.
    pub open spec fn confirm_contract(self, sender: Seq<char>, address: Seq<char>) -> Result<
        (StorageView, ResponseView),
        ContractError,
    > {
        match self.validate_ownership(sender) {
            Err(e) => Err(e),
            Ok(_) => match self.proposed_contract {
                None => Err(ContractError::Std(StdError::NotFound)),
                Some(proposed) => if proposed != address {
                    Err(ContractError::Invalid)
                } else {
                    match self.current_phase {
                        None => Err(ContractError::Std(StdError::NotFound)),
                        Some(current) => if current.0 == u16::MAX {
                            Err(ContractError::Std(StdError::Overflow))
                        } else {
                            Ok(
                                (
                                    StorageView {
                                        proposed_contract: None,
                                        current_phase: Some(((current.0 + 1) as u16, address)),
                                        phases: self.phases.push(((current.0 + 1) as u16, address)),
                                        ..self
                                    },
                                    ResponseView::new().event(
                                        EventView::new("confirm_contract"@).attr(
                                            "old_address"@,
                                            current.1,
                                        ).attr("new_address"@, address),
                                    ),
                                ),
                            )
                        },
                    }
                },
            },
        }
    }

    /// What a query comes to.
    pub open spec fn route(self, msg: QueryMsg) -> Result<RouteView, ContractError> {
        match msg {
            QueryMsg::Decimals {  } => self.ask_current(AggregatorQuery::Decimals, false),
            QueryMsg::Version {  } => self.ask_current(AggregatorQuery::Version, false),
            QueryMsg::Description {  } => self.ask_current(AggregatorQuery::Description, false),
            QueryMsg::RoundData { round_id } => match self.phase_aggregator(parsed(round_id).0) {
                None => Err(ContractError::Std(StdError::NotFound)),
                Some(contract) => Ok(
                    RouteView::Ask {
                        contract,
                        query: AggregatorQuery::RoundData { round_id: parsed(round_id).1 },
                        phase_id: Some(parsed(round_id).0),
                    },
                ),
            },
            QueryMsg::LatestRoundData {  } => self.ask_current(
                AggregatorQuery::LatestRoundData,
                true,
            ),
            QueryMsg::ProposedRoundData { round_id } => self.ask_proposed(
                AggregatorQuery::RoundData { round_id },
            ),
            QueryMsg::ProposedLatestRoundData {  } => self.ask_proposed(
                AggregatorQuery::LatestRoundData,
            ),
            QueryMsg::Aggregator {  } => match self.current_phase {
                None => Err(ContractError::Std(StdError::NotFound)),
                Some(current) => Ok(RouteView::Address(current.1)),
            },
            QueryMsg::PhaseId {  } => match self.current_phase {
                None => Err(ContractError::Std(StdError::NotFound)),
                Some(current) => Ok(RouteView::PhaseId(current.0)),
            },
            QueryMsg::PhaseAggregators { phase_id } => match self.phase_aggregator(phase_id) {
                None => Err(ContractError::Std(StdError::NotFound)),
                Some(contract) => Ok(RouteView::Address(contract)),
            },
            QueryMsg::ProposedAggregator {  } => match self.proposed_contract {
                None => Err(ContractError::Std(StdError::NotFound)),
                Some(proposed) => Ok(RouteView::Address(proposed)),
            },
            QueryMsg::Owner {  } => match self.owner.state {
                None => Err(ContractError::Std(StdError::NotFound)),
                Some(s) => Ok(RouteView::Address(s.owner)),
            },
        }
    }

    /// The query `query` to the aggregator in office.
    pub open spec fn ask_current(self, query: AggregatorQuery, tag: bool) -> Result<
        RouteView,
        ContractError,
    > {
        match self.current_phase {
            None => Err(ContractError::Std(StdError::NotFound)),
            Some(current) => Ok(
                RouteView::Ask {
                    contract: current.1,
                    query,
                    phase_id: if tag {
                        Some(current.0)
                    } else {
                        None
                    },
                },
            ),
        }
    }

    /// The query `query` to the proposed aggregator.
    pub open spec fn ask_proposed(self, query: AggregatorQuery) -> Result<RouteView, ContractError> {
        match self.proposed_contract {
            None => Err(ContractError::Std(StdError::NotFound)),
            Some(proposed) => Ok(RouteView::Ask { contract: proposed, query, phase_id: None }),
        }
    }
}

impl View for Route {
    type V = RouteView;

    open spec fn view(&self) -> RouteView {
        match *self {
            Route::PhaseId(id) => RouteView::PhaseId(id),
            Route::Address(a) => RouteView::Address(a@),
            Route::Ask { contract, query, phase_id } => RouteView::Ask {
                contract: contract@,
                query,
                phase_id,
            },
        }
    }
}

/// A confirmed aggregator leaves the aggregators of all earlier phases in
/// place: their rounds can still be asked for.
pub proof fn lemma_confirm_keeps_history(
    s: StorageView,
    sender: Seq<char>,
    address: Seq<char>,
    phase_id: u16,
)
    requires
        s.wf(),
        s.confirm_contract(sender, address) is Ok,
        s.phase_aggregator(phase_id) is Some,
    ensures
        s.confirm_contract(sender, address)->Ok_0.0.wf(),
        s.confirm_contract(sender, address)->Ok_0.0.phase_aggregator(phase_id)
            == s.phase_aggregator(phase_id),
        s.confirm_contract(sender, address)->Ok_0.0.current_phase->Some_0.0
            == s.current_phase->Some_0.0 + 1,
        s.confirm_contract(sender, address)->Ok_0.0.phase_aggregator(
            (s.current_phase->Some_0.0 + 1) as u16,
        ) == Some(address),
{
}

impl Storage {
    /// The storage of a contract that has not been instantiated.
    pub fn new() -> (s: Storage)
        ensures
            s@.wf(),
            s@ == (StorageView {
                version: None,
                owner: AuthView { namespace: "owner"@, state: None },
                current_phase: None,
                proposed_contract: None,
                phases: Seq::empty(),
            }),
    {
        let s = Storage {
            version: None,
            owner: Auth::new("owner"),
            current_phase: None,
            proposed_contract: None,
            phases: Vec::new(),
        };
        assert(s@.phases =~= Seq::empty());
        s
    }

    /// Whether the storage is one that the contract's calls can have left behind.
    pub fn check(&self) -> (ok: bool)
        ensures
            ok == self@.wf(),
    {
        let mut i: usize = 0;
        while i < self.phases.len()
            invariant
                i <= self.phases@.len(),
                forall|j: int| 0 <= j < i ==> (#[trigger] phase_views(self.phases@)[j]).0 == j + 1,
            decreases self.phases@.len() - i,
        {
            if i >= 0xffff || self.phases[i].id != (i + 1) as u16 {
                assert(phase_views(self.phases@)[i as int].0 != i + 1);
                return false;
            }
            i = i + 1;
        }
        match &self.current_phase {
            Some(p) => {
                if self.phases.len() == 0 {
                    return false;
                }
                let last = &self.phases[self.phases.len() - 1];
                assert(last@ == phase_views(self.phases@).last());
                last.id == p.id && last.contract_address == p.contract_address
            },
            None => self.phases.len() == 0,
        }
    }
}

/// Sets the proxy up in front of its first aggregator, owned by the sender.
pub fn instantiate(storage: &mut Storage, _env: Env, info: MessageInfo, msg: InstantiateMsg) -> (res:
    Result<Response, ContractError>)
    ensures
        res is Ok,
        res->Ok_0@ == ResponseView::new(),
        final(storage)@ == old(storage)@.instantiated(info.sender@, msg.contract_address@),
        final(storage)@.wf(),
{
    storage.version = Some(contract_version(CONTRACT_NAME, CONTRACT_VERSION));
    let _ = storage.owner.initialize(info.sender);
    let mut phases: Vec<Phase> = Vec::new();
    phases.push(Phase { id: 1, contract_address: msg.contract_address.clone() });
    storage.phases = phases;
    storage.current_phase = Some(Phase { id: 1, contract_address: msg.contract_address });
    storage.proposed_contract = None;
    assert(storage@.phases =~= seq![(1u16, msg.contract_address@)]);
    Ok(Response::new())
}

/// What a message does to the storage, and the response to it.
pub open spec fn executed(s: StorageView, sender: Seq<char>, msg: ExecuteMsg) -> Result<
    (StorageView, ResponseView),
    ContractError,
> {
    match msg {
        ExecuteMsg::ProposeContract { address } => s.propose_contract(sender, address@),
        ExecuteMsg::ConfirmContract { address } => s.confirm_contract(sender, address@),
        ExecuteMsg::TransferOwnership { to } => match s.owner.transfer_ownership(sender, to@) {
            Ok((owner, response)) => Ok((StorageView { owner, ..s }, response)),
            Err(e) => Err(ContractError::Owned(e)),
        },
        ExecuteMsg::AcceptOwnership => match s.owner.accept_ownership(sender) {
            Ok((owner, response)) => Ok((StorageView { owner, ..s }, response)),
            Err(e) => Err(ContractError::Owned(e)),
        },
    }
}

/// Carries a message out.
pub fn execute(storage: &mut Storage, env: Env, info: MessageInfo, msg: ExecuteMsg) -> (res: Result<
    Response,
    ContractError,
>)
    requires
        old(storage)@.wf(),
    ensures
        came_out(executed(old(storage)@, info.sender@, msg), res, old(storage)@, final(storage)@),
        final(storage)@.wf(),
{
    match msg {
        ExecuteMsg::ProposeContract { address } => {
            validate_ownership(storage, &env, &info)?;
            let current_address = match &storage.current_phase {
                Some(current) => current.contract_address.clone(),
                None => {
                    return Err(ContractError::Std(StdError::NotFound));
                },
            };
            let event = Event::new("propose_contract").add_attribute(
                "current_address",
                current_address,
            ).add_attribute("proposed_address", address.clone());
            storage.proposed_contract = Some(address);
            Ok(Response::new().add_event(event))
        },
        ExecuteMsg::ConfirmContract { address } => {
            validate_ownership(storage, &env, &info)?;
            // Validate the address was actually proposed previously
            let matches = match &storage.proposed_contract {
                Some(proposed) => *proposed == address,
                None => {
                    return Err(ContractError::Std(StdError::NotFound));
                },
            };
            if !matches {
                return Err(ContractError::Invalid);
            }
            let (id, old_address) = match &storage.current_phase {
                Some(current) => (current.id, current.contract_address.clone()),
                None => {
                    return Err(ContractError::Std(StdError::NotFound));
                },
            };
            if id == u16::MAX {
                return Err(ContractError::Std(StdError::Overflow));
            }
            let event = Event::new("confirm_contract").add_attribute(
                "old_address",
                old_address,
            ).add_attribute("new_address", address.clone());
            // Update state
            let ghost before = storage@.phases;
            storage.proposed_contract = None;
            storage.phases.push(Phase { id: id + 1, contract_address: address.clone() });
            storage.current_phase = Some(Phase { id: id + 1, contract_address: address });
            assert(storage@.phases =~= before.push(((id + 1) as u16, address@)));
            Ok(Response::new().add_event(event))
        },
        ExecuteMsg::TransferOwnership { to } => {
            match storage.owner.execute_transfer_ownership(info, to) {
                Ok(response) => Ok(response),
                Err(e) => Err(ContractError::Owned(e)),
            }
        },
        ExecuteMsg::AcceptOwnership => {
            match storage.owner.execute_accept_ownership(info) {
                Ok(response) => Ok(response),
                Err(e) => Err(ContractError::Owned(e)),
            }
        },
    }
}

/// The aggregator of the phase `phase_id`.
fn phase_address(storage: &Storage, phase_id: u16) -> (res: Result<String, ContractError>)
    requires
        storage@.wf(),
    ensures
        match storage@.phase_aggregator(phase_id) {
            Some(a) => res is Ok && res->Ok_0@ == a,
            None => res == Err::<String, ContractError>(ContractError::Std(StdError::NotFound)),
        },
{
    if 1 <= phase_id && (phase_id as usize) <= storage.phases.len() {
        let phase = &storage.phases[phase_id as usize - 1];
        assert(phase@ == phase_views(storage.phases@)[phase_id - 1]);
        Ok(phase.contract_address.clone())
    } else {
        Err(ContractError::Std(StdError::NotFound))
    }
}

/// Answers a query from the storage, or names the aggregator to hand it to.
pub fn query(storage: &Storage, _env: Env, msg: QueryMsg) -> (res: Result<Route, ContractError>)
    requires
        storage@.wf(),
    ensures
        match storage@.route(msg) {
            Ok(route) => res is Ok && res->Ok_0@ == route,
            Err(e) => res == Err::<Route, ContractError>(e),
        },
{
    match msg {
        QueryMsg::Decimals {  } => ask_current(storage, AggregatorQuery::Decimals, false),
        QueryMsg::Version {  } => ask_current(storage, AggregatorQuery::Version, false),
        QueryMsg::Description {  } => ask_current(storage, AggregatorQuery::Description, false),
        QueryMsg::RoundData { round_id } => {
            let (phase_id, round_id) = parse_round_id(round_id);
            let contract = phase_address(storage, phase_id)?;
            Ok(
                Route::Ask {
                    contract,
                    query: AggregatorQuery::RoundData { round_id },
                    phase_id: Some(phase_id),
                },
            )
        },
        QueryMsg::LatestRoundData {  } => ask_current(
            storage,
            AggregatorQuery::LatestRoundData,
            true,
        ),
        QueryMsg::ProposedRoundData { round_id } => ask_proposed(
            storage,
            AggregatorQuery::RoundData { round_id },
        ),
        QueryMsg::ProposedLatestRoundData {  } => ask_proposed(
            storage,
            AggregatorQuery::LatestRoundData,
        ),
        QueryMsg::Aggregator {  } => match &storage.current_phase {
            Some(current) => Ok(Route::Address(current.contract_address.clone())),
            None => Err(ContractError::Std(StdError::NotFound)),
        },
        QueryMsg::PhaseId {  } => match &storage.current_phase {
            Some(current) => Ok(Route::PhaseId(current.id)),
            None => Err(ContractError::Std(StdError::NotFound)),
        },
        QueryMsg::PhaseAggregators { phase_id } => {
            let contract = phase_address(storage, phase_id)?;
            Ok(Route::Address(contract))
        },
        QueryMsg::ProposedAggregator {  } => match &storage.proposed_contract {
            Some(proposed) => Ok(Route::Address(proposed.clone())),
            None => Err(ContractError::Std(StdError::NotFound)),
        },
        QueryMsg::Owner {  } => match storage.owner.query_owner() {
            Ok(owner) => Ok(Route::Address(owner)),
            Err(e) => Err(ContractError::Std(e)),
        },
    }
}

fn ask_current(storage: &Storage, query: AggregatorQuery, tag: bool) -> (res: Result<
    Route,
    ContractError,
>)
    ensures
        match storage@.ask_current(query, tag) {
            Ok(route) => res is Ok && res->Ok_0@ == route,
            Err(e) => res == Err::<Route, ContractError>(e),
        },
{
    match &storage.current_phase {
        Some(current) => Ok(
            Route::Ask {
                contract: current.contract_address.clone(),
                query,
                phase_id: if tag {
                    Some(current.id)
                } else {
                    None
                },
            },
        ),
        None => Err(ContractError::Std(StdError::NotFound)),
    }
}

fn ask_proposed(storage: &Storage, query: AggregatorQuery) -> (res: Result<Route, ContractError>)
    ensures
        match storage@.ask_proposed(query) {
            Ok(route) => res is Ok && res->Ok_0@ == route,
            Err(e) => res == Err::<Route, ContractError>(e),
        },
{
    match &storage.proposed_contract {
        Some(proposed) => Ok(Route::Ask { contract: proposed.clone(), query, phase_id: None }),
        None => Err(ContractError::Std(StdError::NotFound)),
    }
}

/// What the proxy hands on of an aggregator's answer: a round of an aggregator
/// in office with its number tagged by the phase, anything else as it is.
pub fn answer(phase_id: Option<u16>, given: AggregatorAnswer) -> (res: QueryResponse)
    ensures
        match given {
            AggregatorAnswer::Decimals(d) => res == QueryResponse::Decimals(d),
            AggregatorAnswer::Version(v) => res == QueryResponse::Version(v),
            AggregatorAnswer::Description(d) => res == QueryResponse::Description(d),
            AggregatorAnswer::Round(r) => match phase_id {
                Some(p) => res == QueryResponse::Round(
                    Round {
                        round_id: tagged(p, r.round_id),
                        answer: r.answer,
                        observations_timestamp: r.observations_timestamp,
                        transmission_timestamp: r.transmission_timestamp,
                    },
                ),
                None => res == QueryResponse::ProposedRound(r),
            },
        },
{
    match given {
        AggregatorAnswer::Decimals(d) => QueryResponse::Decimals(d),
        AggregatorAnswer::Version(v) => QueryResponse::Version(v),
        AggregatorAnswer::Description(d) => QueryResponse::Description(d),
        AggregatorAnswer::Round(r) => match phase_id {
            Some(p) => QueryResponse::Round(with_phase_id(r, p)),
            None => QueryResponse::ProposedRound(r),
        },
    }
}

/// Records the contract's version anew, where the storage was written by a
/// contract of this kind.
pub fn migrate(storage: &mut Storage, _env: Env) -> (res: Result<Response, ContractError>)
    ensures
        match old(storage)@.version {
            None => res == Err::<Response, ContractError>(ContractError::Std(StdError::NotFound))
                && final(storage)@ == old(storage)@,
            Some(v) => if v.0 == CONTRACT_NAME@ {
                res is Ok && res->Ok_0@ == ResponseView::new() && final(storage)@ == (StorageView {
                    version: Some((CONTRACT_NAME@, CONTRACT_VERSION@)),
                    ..old(storage)@
                })
            } else {
                res matches Err(ContractError::CannotMigrate { previous_contract })
                    && previous_contract@ == v.0 && final(storage)@ == old(storage)@
            },
        },
{
    let previous = match &storage.version {
        Some(stored) => stored.contract.clone(),
        None => {
            return Err(ContractError::Std(StdError::NotFound));
        },
    };
    // ensure we are migrating from an allowed contract
    if !crate::table::str_eq(previous.as_str(), CONTRACT_NAME) {
        return Err(ContractError::CannotMigrate { previous_contract: previous });
    }
    // Update the contract version
    storage.version = Some(contract_version(CONTRACT_NAME, CONTRACT_VERSION));
    Ok(Response::new())
}

fn validate_ownership(storage: &Storage, _env: &Env, info: &MessageInfo) -> (res: Result<
    (),
    ContractError,
>)
    ensures
        res == storage@.validate_ownership(info.sender@),
{
    match storage.owner.is_owner(&info.sender) {
        Err(e) => Err(ContractError::Std(e)),
        Ok(false) => Err(ContractError::Unauthorized),
        Ok(true) => Ok(()),
    }
}

} // verus!
