use oracle_contracts::host::{Env, MessageInfo, StdError};
use oracle_contracts::ocr2::state::Round as AggregatorRound;
use oracle_contracts::proxy_ocr2::msg::{
    AggregatorAnswer, AggregatorQuery, ExecuteMsg, InstantiateMsg, QueryMsg, QueryResponse,
};
use oracle_contracts::proxy_ocr2::state::Round;
use oracle_contracts::proxy_ocr2::{
    answer, execute, instantiate, migrate, parse_round_id, query, with_phase_id, ContractError,
    Route, Storage,
};
use oracle_contracts::query_proxy;

fn mock_env() -> Env {
    Env {
        block_height: 12345,
        block_time: 1571797419,
        chain_id: "cosmos-testnet-14002".to_string(),
        contract_address: "contract1".to_string(),
    }
}

fn info(sender: &str) -> MessageInfo {
    MessageInfo { sender: sender.to_string() }
}

pub const DECIMALS: u8 = 8;
pub const VERSION: &str = "0.0.0";
pub const NAME: &str = "mock test";

/// An aggregator that stores the rounds it is handed.
struct MockAggregator {
    address: String,
    latest_round: u32,
    rounds: Vec<AggregatorRound>,
}

impl MockAggregator {
    fn new(address: &str) -> MockAggregator {
        MockAggregator { address: address.to_string(), latest_round: 0, rounds: Vec::new() }
    }

    fn insert(&mut self, round: AggregatorRound) {
        // store data based on passed in round_id
        self.latest_round = round.round_id;
        self.rounds.push(round);
    }

    fn query(&self, msg: AggregatorQuery) -> Option<AggregatorAnswer> {
        match msg {
            AggregatorQuery::RoundData { round_id } => self
                .rounds
                .iter()
                .find(|r| r.round_id == round_id)
                .map(|r| AggregatorAnswer::Round(*r)),
            AggregatorQuery::LatestRoundData => self
                .rounds
                .iter()
                .find(|r| r.round_id == self.latest_round)
                .map(|r| AggregatorAnswer::Round(*r)),
            AggregatorQuery::Decimals => Some(AggregatorAnswer::Decimals(DECIMALS)),
            AggregatorQuery::Version => Some(AggregatorAnswer::Version(VERSION.to_string())),
            AggregatorQuery::Description => Some(AggregatorAnswer::Description(NAME.to_string())),
        }
    }
}

struct TestingEnv {
    aggregators: Vec<MockAggregator>,
    owner: String,
    proxy: Storage,
}

impl TestingEnv {
    /// Asks the proxy, and the aggregator that the proxy names.
    fn query(&self, msg: QueryMsg) -> QueryResponse {
        match query(&self.proxy, mock_env(), msg).unwrap() {
            Route::Address(address) => QueryResponse::Address(address),
            Route::PhaseId(id) => QueryResponse::PhaseId(id),
            Route::Ask { contract, query, phase_id } => {
                let aggregator = self.aggregators.iter().find(|a| a.address == contract).unwrap();
                answer(phase_id, aggregator.query(query).unwrap())
            }
        }
    }

    fn round(&self, msg: QueryMsg) -> Round {
        match self.query(msg) {
            QueryResponse::Round(round) => round,
            other => panic!("not a round: {:?}", other),
        }
    }

    fn proposed_round(&self, msg: QueryMsg) -> AggregatorRound {
        match self.query(msg) {
            QueryResponse::ProposedRound(round) => round,
            other => panic!("not a round: {:?}", other),
        }
    }

    fn address(&self, msg: QueryMsg) -> String {
        match self.query(msg) {
            QueryResponse::Address(address) => address,
            other => panic!("not an address: {:?}", other),
        }
    }

    fn phase_id(&self) -> u16 {
        match self.query(QueryMsg::PhaseId {}) {
            QueryResponse::PhaseId(id) => id,
            other => panic!("not a phase: {:?}", other),
        }
    }
}

fn setup() -> TestingEnv {
    let owner = "owner".to_string();

    let ocr2 = MockAggregator::new("contract0");

    let mut proxy = Storage::new();
    instantiate(
        &mut proxy,
        mock_env(),
        info(&owner),
        InstantiateMsg { contract_address: ocr2.address.clone() },
    )
    .unwrap();

    TestingEnv { aggregators: vec![ocr2], owner, proxy }
}

#[test]
fn proxy_proper_initialization() {
    let env = setup();
    assert!(env.proxy.check());
}

#[test]
fn integration_tests_it_works() {
    let mut env = setup();

    // insert two rounds into the current aggregator
    env.aggregators[0].insert(AggregatorRound {
        round_id: 1,
        answer: 1,
        observations_timestamp: 1,
        transmission_timestamp: 1,
    });

    env.aggregators[0].insert(AggregatorRound {
        round_id: 2,
        answer: 2,
        observations_timestamp: 2,
        transmission_timestamp: 2,
    });

    // query latest round
    let latest_round: Round = env.round(QueryMsg::LatestRoundData {});

    assert_eq!(parse_round_id(latest_round.round_id), (1, 2));

    // query decimals
    assert_eq!(env.query(QueryMsg::Decimals {}), QueryResponse::Decimals(DECIMALS));

    // query version
    assert_eq!(env.query(QueryMsg::Version {}), QueryResponse::Version(VERSION.to_string()));

    // query description
    assert_eq!(env.query(QueryMsg::Description {}), QueryResponse::Description(NAME.to_string()));

    // query by round id, it should match latest round
    let round: Round = env.round(QueryMsg::RoundData { round_id: latest_round.round_id });

    assert_eq!(round, latest_round);

    // store for later assert
    let historic_round = round;

    // instantiate a second ocr2 aggregator
    let mut ocr2_2 = MockAggregator::new("contract2");

    // insert a rounds into the new aggregator
    ocr2_2.insert(AggregatorRound {
        round_id: 3,
        answer: 1,
        observations_timestamp: 1,
        transmission_timestamp: 1,
    });
    let ocr2_addr2 = ocr2_2.address.clone();
    env.aggregators.push(ocr2_2);

    // propose it to the proxy
    execute(
        &mut env.proxy,
        mock_env(),
        info(&env.owner),
        ExecuteMsg::ProposeContract { address: ocr2_addr2.to_string() },
    )
    .unwrap();

    // query latest round, it should still point to the old aggregator
    let latest_round: Round = env.round(QueryMsg::LatestRoundData {});
    assert_eq!(parse_round_id(latest_round.round_id), (1, 2));

    // but the proposed round should be newer
    let proposed_latest_round = env.proposed_round(QueryMsg::ProposedLatestRoundData {});

    assert_eq!(proposed_latest_round.round_id, 3);

    // (proposed) query by round id, it should match latest round
    let proposed_round = env.proposed_round(QueryMsg::ProposedRoundData {
        round_id: proposed_latest_round.round_id as u32,
    });
    assert_eq!(proposed_round, proposed_latest_round);

    // store old aggregator address
    let old_aggregator: String = env.address(QueryMsg::Aggregator {});
    assert_eq!(env.aggregators[0].address.to_string(), old_aggregator);

    // store old aggregator address
    let proposed_aggregator: String = env.address(QueryMsg::ProposedAggregator {});
    assert_eq!(ocr2_addr2.to_string(), proposed_aggregator);

    // save the phase before the swap
    let old_phase: u16 = env.phase_id();

    // confirm aggregator swap
    execute(
        &mut env.proxy,
        mock_env(),
        info(&env.owner),
        ExecuteMsg::ConfirmContract { address: ocr2_addr2.to_string() },
    )
    .unwrap();

    // fetch new aggregator address
    let new_aggregator: String = env.address(QueryMsg::Aggregator {});
    assert_ne!(old_aggregator, new_aggregator);
    assert_eq!(ocr2_addr2.to_string(), new_aggregator);
    assert_eq!(proposed_aggregator, new_aggregator);

    // check phase details after switching
    let new_phase: u16 = env.phase_id();
    assert_ne!(old_phase, new_phase);
    let old_phase_agg: String = env.address(QueryMsg::PhaseAggregators { phase_id: old_phase });
    let new_phase_agg: String = env.address(QueryMsg::PhaseAggregators { phase_id: new_phase });
    assert_eq!(old_aggregator, old_phase_agg);
    assert_eq!(new_aggregator, new_phase_agg);

    let latest_round: Round = env.round(QueryMsg::LatestRoundData {});
    assert_eq!(parse_round_id(latest_round.round_id), (2, 3));

    // but historic data should still work
    let round: Round = env.round(QueryMsg::RoundData { round_id: historic_round.round_id });

    assert_eq!(round, historic_round);

    // test ownership transfer
    let old_owner: String = env.address(QueryMsg::Owner {});
    let owner2 = "new_owner".to_string();
    // cannot transfer if not owner
    assert!(execute(
        &mut env.proxy,
        mock_env(),
        info(&owner2),
        ExecuteMsg::TransferOwnership { to: owner2.to_string() },
    )
    .is_err());
    // owner can transfer ownership
    assert!(execute(
        &mut env.proxy,
        mock_env(),
        info(&env.owner),
        ExecuteMsg::TransferOwnership { to: env.owner.to_string() },
    )
    .is_ok());
    // owner can transfer ownership again (overwrite pending)
    assert!(execute(
        &mut env.proxy,
        mock_env(),
        info(&env.owner),
        ExecuteMsg::TransferOwnership { to: owner2.to_string() },
    )
    .is_ok());
    // current owner cannot accept ownership of new owner
    assert!(execute(&mut env.proxy, mock_env(), info(&env.owner), ExecuteMsg::AcceptOwnership)
        .is_err());
    // new owner can accept ownership
    assert!(execute(&mut env.proxy, mock_env(), info(&owner2), ExecuteMsg::AcceptOwnership).is_ok());
    let new_owner: String = env.address(QueryMsg::Owner {});
    assert_ne!(old_owner, new_owner);
    assert_eq!(owner2.to_string(), new_owner);
    assert!(env.proxy.check());
}

#[test]
fn round_ids_are_tagged_with_the_phase() {
    let round = AggregatorRound {
        round_id: 7,
        answer: -5,
        observations_timestamp: 11,
        transmission_timestamp: 12,
    };
    let tagged = with_phase_id(round, 3);
    assert_eq!(tagged.round_id, (3u64 << 32) | 7);
    assert_eq!(tagged.answer, -5);
    assert_eq!(tagged.observations_timestamp, 11);
    assert_eq!(tagged.transmission_timestamp, 12);
    assert_eq!(parse_round_id(tagged.round_id), (3, 7));
    // the edges of both parts
    for (phase, local) in [(0u16, 0u32), (0, u32::MAX), (u16::MAX, 0), (u16::MAX, u32::MAX), (1, 1)] {
        let round = AggregatorRound {
            round_id: local,
            answer: 0,
            observations_timestamp: 0,
            transmission_timestamp: 0,
        };
        assert_eq!(parse_round_id(with_phase_id(round, phase).round_id), (phase, local));
    }
    // higher bits are dropped
    assert_eq!(parse_round_id(u64::MAX), (u16::MAX, u32::MAX));
    assert_eq!(parse_round_id(1u64 << 48), (0, 0));
    assert_eq!(parse_round_id(0x0001_0002_0000_0003), (2, 3));
}

#[test]
fn confirming_needs_the_proposed_address() {
    let mut env = setup();
    // nothing proposed yet
    let err = execute(
        &mut env.proxy,
        mock_env(),
        info("owner"),
        ExecuteMsg::ConfirmContract { address: "contract2".to_string() },
    )
    .unwrap_err();
    assert_eq!(err, ContractError::Std(StdError::NotFound));
    let res = execute(
        &mut env.proxy,
        mock_env(),
        info("owner"),
        ExecuteMsg::ProposeContract { address: "contract2".to_string() },
    )
    .unwrap();
    assert_eq!(res.events[0].ty, "propose_contract");
    assert_eq!(res.events[0].attributes[0].key, "current_address");
    assert_eq!(res.events[0].attributes[0].value, "contract0");
    assert_eq!(res.events[0].attributes[1].key, "proposed_address");
    assert_eq!(res.events[0].attributes[1].value, "contract2");
    // another address than the proposed
    let before = env.proxy.clone();
    let err = execute(
        &mut env.proxy,
        mock_env(),
        info("owner"),
        ExecuteMsg::ConfirmContract { address: "contract3".to_string() },
    )
    .unwrap_err();
    assert_eq!(err, ContractError::Invalid);
    assert_eq!(env.proxy, before);
    // not the owner
    let err = execute(
        &mut env.proxy,
        mock_env(),
        info("stranger"),
        ExecuteMsg::ConfirmContract { address: "contract2".to_string() },
    )
    .unwrap_err();
    assert_eq!(err, ContractError::Unauthorized);
    let err = execute(
        &mut env.proxy,
        mock_env(),
        info("stranger"),
        ExecuteMsg::ProposeContract { address: "contract2".to_string() },
    )
    .unwrap_err();
    assert_eq!(err, ContractError::Unauthorized);
    let res = execute(
        &mut env.proxy,
        mock_env(),
        info("owner"),
        ExecuteMsg::ConfirmContract { address: "contract2".to_string() },
    )
    .unwrap();
    assert_eq!(res.events[0].ty, "confirm_contract");
    assert_eq!(res.events[0].attributes[0].value, "contract0");
    assert_eq!(res.events[0].attributes[1].value, "contract2");
    assert_eq!(env.proxy.current_phase.clone().unwrap().id, 2);
    assert_eq!(env.proxy.proposed_contract, None);
    assert_eq!(env.proxy.phases.len(), 2);
    // a round of a phase that never was
    assert_eq!(
        query(&env.proxy, mock_env(), QueryMsg::RoundData { round_id: (3u64 << 32) | 1 })
            .unwrap_err(),
        ContractError::Std(StdError::NotFound)
    );
    assert_eq!(
        query(&env.proxy, mock_env(), QueryMsg::PhaseAggregators { phase_id: 0 }).unwrap_err(),
        ContractError::Std(StdError::NotFound)
    );
    assert_eq!(
        query(&env.proxy, mock_env(), QueryMsg::ProposedAggregator {}).unwrap_err(),
        ContractError::Std(StdError::NotFound)
    );
}

#[test]
fn proxy_migrate() {
    let mut env = setup();
    migrate(&mut env.proxy, mock_env()).unwrap();
    let mut empty = Storage::new();
    assert_eq!(
        migrate(&mut empty, mock_env()).unwrap_err(),
        ContractError::Std(StdError::NotFound)
    );
    env.proxy.version = Some(oracle_contracts::host::ContractVersion {
        contract: "crates.io:flags".to_string(),
        version: "1.0.0".to_string(),
    });
    assert_eq!(
        migrate(&mut env.proxy, mock_env()).unwrap_err(),
        ContractError::CannotMigrate { previous_contract: "crates.io:flags".to_string() }
    );
}

#[test]
fn proxy() {
    // a proxy in front of a contract that answers "foo"
    let owner = "owner".to_string();
    let foo_addr = "contract0".to_string();
    let mut proxy = query_proxy::Storage::new();
    query_proxy::instantiate(
        &mut proxy,
        mock_env(),
        info(&owner),
        query_proxy::InstantiateMsg { contract_address: foo_addr.clone() },
    )
    .unwrap();

    let target = query_proxy::query(&proxy, mock_env()).unwrap();
    let foo: String = if target == foo_addr { "foo".to_string() } else { String::new() };

    assert_eq!(foo, "foo");
}

#[test]
fn query_proxy_phases() {
    let mut proxy = query_proxy::Storage::new();
    assert_eq!(
        query_proxy::query(&proxy, mock_env()).unwrap_err(),
        query_proxy::ContractError::Std(StdError::NotFound)
    );
    query_proxy::instantiate(
        &mut proxy,
        mock_env(),
        info("owner"),
        query_proxy::InstantiateMsg { contract_address: "a".to_string() },
    )
    .unwrap();
    assert_eq!(proxy.current_phase.clone().unwrap().id, 0);
    assert_eq!(
        query_proxy::execute(
            &mut proxy,
            mock_env(),
            info("stranger"),
            query_proxy::ExecuteMsg::ProposeContract { address: "b".to_string() },
        )
        .unwrap_err(),
        query_proxy::ContractError::Unauthorized
    );
    query_proxy::execute(
        &mut proxy,
        mock_env(),
        info("owner"),
        query_proxy::ExecuteMsg::ProposeContract { address: "b".to_string() },
    )
    .unwrap();
    assert_eq!(query_proxy::query(&proxy, mock_env()).unwrap(), "a");
    assert_eq!(
        query_proxy::execute(
            &mut proxy,
            mock_env(),
            info("owner"),
            query_proxy::ExecuteMsg::ConfirmContract { address: "c".to_string() },
        )
        .unwrap_err(),
        query_proxy::ContractError::Invalid
    );
    query_proxy::execute(
        &mut proxy,
        mock_env(),
        info("owner"),
        query_proxy::ExecuteMsg::ConfirmContract { address: "b".to_string() },
    )
    .unwrap();
    assert_eq!(query_proxy::query(&proxy, mock_env()).unwrap(), "b");
    assert_eq!(proxy.current_phase.clone().unwrap().id, 1);
    assert_eq!(proxy.phases.len(), 2);
    query_proxy::execute(
        &mut proxy,
        mock_env(),
        info("owner"),
        query_proxy::ExecuteMsg::TransferOwnership { to: "next".to_string() },
    )
    .unwrap();
    query_proxy::execute(
        &mut proxy,
        mock_env(),
        info("next"),
        query_proxy::ExecuteMsg::AcceptOwnership,
    )
    .unwrap();
    assert_eq!(proxy.owner.query_owner().unwrap(), "next");
}
