use blake2::{Blake2s, Digest};
use ed25519_zebra::{SigningKey, VerificationKey, VerificationKeyBytes};
use rand::thread_rng;

use oracle_contracts::host::{Attribute, Env, Event, Message, MessageInfo, Querier, Response, StdError};
use oracle_contracts::ocr2::contract::{
    calculate_reimbursement, execute, execute_set_config, execute_transmit, instantiate,
    owed_payment, pay_oracles, query, signatures_from, total_link_due, transmit_with_verdict,
    verification_input,
};
use oracle_contracts::ocr2::msg::{ExecuteMsg, InstantiateMsg, QueryMsg, QueryResponse};
use oracle_contracts::ocr2::report::decode_report;
use oracle_contracts::ocr2::state::{
    config_digest_from_data, Billing, Config, Proposal, Storage, Transmitter, Validator,
    MAX_ORACLES,
};
use oracle_contracts::ocr2::{ContractError, Decimal};
use oracle_contracts::owned::Error as OwnedError;
use oracle_contracts::table::Table;

const CONTRACT: &str = "contract0";
const OWNER: &str = "owner";

fn mock_env() -> Env {
    Env {
        block_height: 12345,
        block_time: 1571797419,
        chain_id: "cosmos-testnet-14002".to_string(),
        contract_address: CONTRACT.to_string(),
    }
}

fn mock_info(sender: &str) -> MessageInfo {
    MessageInfo { sender: sender.to_string() }
}

fn no_answers() -> Querier {
    Querier { has_access: Some(false), balance: Some(0), new_token_balance: None }
}

fn attr(key: &str, value: &str) -> Attribute {
    Attribute { key: key.to_string(), value: value.to_string() }
}

fn setup() -> Storage {
    let mut deps = Storage::new();

    let msg = InstantiateMsg {
        link_token: "LINK".to_string(),
        min_answer: 1i128,
        max_answer: 1_000_000_000i128,
        billing_access_controller: "billing_controller".to_string(),
        requester_access_controller: "requester_controller".to_string(),
        decimals: 18,
        description: "ETH/USD".to_string(),
    };
    let info = mock_info("owner");

    // we can just call .unwrap() to assert this was a success
    let res = instantiate(&mut deps, mock_env(), info, msg).unwrap();
    assert_eq!(0, res.messages.len());
    deps
}

fn run(deps: &mut Storage, sender: &str, msg: ExecuteMsg) -> Result<Response, ContractError> {
    let before = deps.clone();
    let res = execute(deps, mock_env(), mock_info(sender), msg, &no_answers());
    assert!(deps.check());
    if res.is_err() {
        assert!(*deps == before);
    }
    res
}

#[test]
fn ocr2_proper_initialization() {
    let deps = setup();
    assert!(deps.check());
    let config = deps.config.clone().unwrap();
    assert_eq!(config.latest_config_digest, [0u8; 32]);
    assert_eq!(config.billing, Billing::default());
    assert_eq!(config.validator, None);
    assert_eq!((config.epoch, config.round, config.f, config.n), (0, 0, 0, 0));
    assert_eq!(deps.owner.query_owner().unwrap(), "owner");
}

#[test]
fn instantiate_tells_the_token() {
    let mut deps = Storage::new();
    let res = instantiate(
        &mut deps,
        mock_env(),
        mock_info("owner"),
        InstantiateMsg {
            link_token: "LINK".to_string(),
            min_answer: 1i128,
            max_answer: 1_000_000_000i128,
            billing_access_controller: "billing_controller".to_string(),
            requester_access_controller: "requester_controller".to_string(),
            decimals: 18,
            description: "ETH/USD".to_string(),
        },
    )
    .unwrap();
    assert_eq!(
        res.events,
        vec![Event {
            ty: "set_link_token".to_string(),
            attributes: vec![attr("new_link_token", "LINK")]
        }]
    );
    assert!(res.attributes.is_empty());
    assert_eq!(res.data, None);
}

#[test]
fn set_config() {
    let mut deps = setup();
    let owner = "owner".to_string();

    let msg = ExecuteMsg::SetConfig {
        signers: vec![vec![1; 64], vec![2; 64], vec![3; 64], vec![4; 64]],
        transmitters: vec![
            "transmitter0".to_string(),
            "transmitter1".to_string(),
            "transmitter2".to_string(),
            "transmitter3".to_string(),
        ],
        f: 1,
        onchain_config: vec![],
        offchain_config_version: 1,
        offchain_config: vec![4, 5, 6],
    };

    let execute_info = mock_info(owner.as_str());
    execute(&mut deps, mock_env(), execute_info, msg, &no_answers()).unwrap();
}

#[test]
fn payees() {
    let mut deps = setup();
    let owner = "owner".to_string();

    let msg = ExecuteMsg::SetPayees {
        payees: vec![("transmitter0".to_string(), "payee0".to_string())],
    };
    run(&mut deps, &owner, msg).unwrap();

    // setting the same payee again fails
    let msg = ExecuteMsg::SetPayees {
        payees: vec![("transmitter0".to_string(), "payee1".to_string())],
    };
    let res = run(&mut deps, &owner, msg);
    assert_eq!(res.unwrap_err(), ContractError::PayeeAlreadySet);

    // setting a different payee works
    let msg = ExecuteMsg::SetPayees {
        payees: vec![("transmitter1".to_string(), "payee1".to_string())],
    };
    run(&mut deps, &owner, msg).unwrap();

    // can't transfer to self
    let msg = ExecuteMsg::TransferPayeeship {
        transmitter: "transmitter1".to_string(),
        proposed: "payee1".to_string(),
    };
    let res = run(&mut deps, "payee1", msg);
    assert_eq!(res.unwrap_err(), ContractError::TransferToSelf);

    // only payee can transfer
    let msg = ExecuteMsg::TransferPayeeship {
        transmitter: "transmitter0".to_string(),
        proposed: "payee2".to_string(),
    };
    let res = run(&mut deps, "payee1", msg);
    assert_eq!(res.unwrap_err(), ContractError::Unauthorized);

    // successful transfer
    let msg = ExecuteMsg::TransferPayeeship {
        transmitter: "transmitter1".to_string(),
        proposed: "payee2".to_string(),
    };
    run(&mut deps, "payee1", msg).unwrap();

    // only proposed payee can accept
    let msg = ExecuteMsg::AcceptPayeeship { transmitter: "transmitter1".to_string() };
    let res = run(&mut deps, "payee1", msg);
    assert_eq!(res.unwrap_err(), ContractError::Unauthorized);

    // succesful accept
    let msg = ExecuteMsg::AcceptPayeeship { transmitter: "transmitter1".to_string() };
    run(&mut deps, "payee2", msg).unwrap();
}

#[test]
fn payee_events() {
    let mut deps = setup();
    let res = run(
        &mut deps,
        OWNER,
        ExecuteMsg::SetPayees {
            payees: vec![
                ("t1".to_string(), "p1".to_string()),
                ("t0".to_string(), "p0".to_string()),
            ],
        },
    )
    .unwrap();
    assert_eq!(
        res.events,
        vec![
            Event {
                ty: "payeeship_transferred".to_string(),
                attributes: vec![attr("transmitter", "t1"), attr("current", "p1")]
            },
            Event {
                ty: "payeeship_transferred".to_string(),
                attributes: vec![attr("transmitter", "t0"), attr("current", "p0")]
            },
        ]
    );
    // one transmitter twice in a list: nothing of the list is set
    let err = run(
        &mut deps,
        OWNER,
        ExecuteMsg::SetPayees {
            payees: vec![
                ("t2".to_string(), "p2".to_string()),
                ("t2".to_string(), "p3".to_string()),
            ],
        },
    )
    .unwrap_err();
    assert_eq!(err, ContractError::PayeeAlreadySet);
    assert!(!deps.payees.contains("t2"));
    // not the owner
    let err = run(
        &mut deps,
        "stranger",
        ExecuteMsg::SetPayees { payees: vec![("t2".to_string(), "p2".to_string())] },
    )
    .unwrap_err();
    assert_eq!(err, ContractError::Unauthorized);

    let res = run(
        &mut deps,
        "p0",
        ExecuteMsg::TransferPayeeship { transmitter: "t0".to_string(), proposed: "q".to_string() },
    )
    .unwrap();
    assert_eq!(
        res.events,
        vec![Event {
            ty: "payeeship_transfer_requested".to_string(),
            attributes: vec![attr("transmitter", "t0"), attr("current", "p0"), attr("proposed", "q")]
        }]
    );
    // the same proposal again tells nothing
    let res = run(
        &mut deps,
        "p0",
        ExecuteMsg::TransferPayeeship { transmitter: "t0".to_string(), proposed: "q".to_string() },
    )
    .unwrap();
    assert!(res.events.is_empty());
    let res = run(&mut deps, "q", ExecuteMsg::AcceptPayeeship { transmitter: "t0".to_string() })
        .unwrap();
    assert_eq!(
        res.events,
        vec![Event {
            ty: "payeeship_transferred".to_string(),
            attributes: vec![attr("transmitter", "t0"), attr("previous", "p0"), attr("current", "q")]
        }]
    );
    assert_eq!(deps.payees.get("t0"), Some(&"q".to_string()));
    assert!(!deps.proposed_payees.contains("t0"));
    // nothing is proposed any more
    let err = run(&mut deps, "q", ExecuteMsg::AcceptPayeeship { transmitter: "t0".to_string() })
        .unwrap_err();
    assert_eq!(err, ContractError::Std(StdError::NotFound));
}

fn committee(n: usize) -> (Vec<SigningKey>, Vec<Vec<u8>>, Vec<String>) {
    let mut keypairs = Vec::new();
    for _ in 0..n {
        keypairs.push(SigningKey::new(thread_rng()));
    }
    let signers = keypairs.iter().map(|sk| VerificationKeyBytes::from(sk).as_ref().to_vec()).collect();
    let transmitters = (0..n).map(|i| format!("transmitter{}", i)).collect();
    (keypairs, signers, transmitters)
}

fn set_config_msg(signers: Vec<Vec<u8>>, transmitters: Vec<String>, f: u8) -> ExecuteMsg {
    ExecuteMsg::SetConfig {
        signers,
        transmitters,
        f,
        onchain_config: vec![],
        offchain_config_version: 1,
        offchain_config: vec![4, 5, 6],
    }
}

#[test]
fn set_config_rules() {
    let mut deps = setup();
    let (_, signers, transmitters) = committee(4);

    // not the owner
    let err = run(&mut deps, "stranger", set_config_msg(signers.clone(), transmitters.clone(), 1))
        .unwrap_err();
    assert_eq!(err, ContractError::Unauthorized);
    // f must not be zero
    let err =
        run(&mut deps, OWNER, set_config_msg(signers.clone(), transmitters.clone(), 0)).unwrap_err();
    assert_eq!(err, ContractError::InvalidInput);
    // 3f < n
    let err =
        run(&mut deps, OWNER, set_config_msg(signers.clone(), transmitters.clone(), 2)).unwrap_err();
    assert_eq!(err, ContractError::InvalidInput);
    let (_, three, names) = committee(3);
    let err = run(&mut deps, OWNER, set_config_msg(three, names, 1)).unwrap_err();
    assert_eq!(err, ContractError::InvalidInput);
    // as many transmitters as signers
    let err = run(&mut deps, OWNER, set_config_msg(signers.clone(), transmitters[..3].to_vec(), 1))
        .unwrap_err();
    assert_eq!(err, ContractError::InvalidInput);
    // too many
    let (_, many, names) = committee(MAX_ORACLES + 1);
    let err = run(&mut deps, OWNER, set_config_msg(many, names, 1)).unwrap_err();
    assert_eq!(err, ContractError::TooManySigners);
    // a transmitter twice
    let mut twice = transmitters.clone();
    twice[3] = twice[0].clone();
    let err = run(&mut deps, OWNER, set_config_msg(signers.clone(), twice, 1)).unwrap_err();
    assert_eq!(err, ContractError::RepeatedAddress);
    // a signer twice
    let mut twice = signers.clone();
    twice[2] = twice[1].clone();
    let err = run(&mut deps, OWNER, set_config_msg(twice, transmitters.clone(), 1)).unwrap_err();
    assert_eq!(err, ContractError::RepeatedAddress);
    // the onchain configuration must be empty, the offchain one must not
    let err = run(
        &mut deps,
        OWNER,
        ExecuteMsg::SetConfig {
            signers: signers.clone(),
            transmitters: transmitters.clone(),
            f: 1,
            onchain_config: vec![1],
            offchain_config_version: 1,
            offchain_config: vec![4, 5, 6],
        },
    )
    .unwrap_err();
    assert_eq!(err, ContractError::InvalidInput);
    let err = run(
        &mut deps,
        OWNER,
        ExecuteMsg::SetConfig {
            signers: signers.clone(),
            transmitters: transmitters.clone(),
            f: 1,
            onchain_config: vec![],
            offchain_config_version: 1,
            offchain_config: vec![],
        },
    )
    .unwrap_err();
    assert_eq!(err, ContractError::InvalidInput);
    // a chain whose name is too long for the digest
    let mut far = mock_env();
    far.chain_id = "c".repeat(256);
    let before = deps.clone();
    let err = execute(
        &mut deps,
        far.clone(),
        mock_info(OWNER),
        set_config_msg(signers.clone(), transmitters.clone(), 1),
        &no_answers(),
    )
    .unwrap_err();
    assert_eq!(err, ContractError::InvalidInput);
    assert!(deps == before);
    far.chain_id = "c".repeat(255);
    let mut scratch = deps.clone();
    execute(
        &mut scratch,
        far,
        mock_info(OWNER),
        set_config_msg(signers.clone(), transmitters.clone(), 1),
        &no_answers(),
    )
    .unwrap();
    // a contract that was never set up
    let mut empty = Storage::new();
    let err = execute(
        &mut empty,
        mock_env(),
        mock_info(OWNER),
        set_config_msg(signers.clone(), transmitters.clone(), 1),
        &no_answers(),
    )
    .unwrap_err();
    assert_eq!(err, ContractError::Std(StdError::NotFound));
    // the most that fits
    let (_, most, names) = committee(MAX_ORACLES);
    run(&mut deps, OWNER, set_config_msg(most, names, 10)).unwrap();
    assert_eq!(deps.config.clone().unwrap().n, 31);
    assert_eq!(deps.config.clone().unwrap().f, 10);
}

#[test]
fn set_config_event_and_state() {
    let mut deps = setup();
    let signers = vec![vec![1; 32], vec![2; 32], vec![0xab; 32], vec![4; 32]];
    let transmitters: Vec<String> =
        ["delta", "alpha", "charlie", "bravo"].iter().map(|s| s.to_string()).collect();
    let res = run(&mut deps, OWNER, set_config_msg(signers.clone(), transmitters.clone(), 1)).unwrap();
    let config = deps.config.clone().unwrap();
    assert_eq!(config.config_count, 1);
    assert_eq!(config.latest_config_block_number, 12345);
    assert_eq!((config.f, config.n, config.epoch, config.round), (1, 4, 0, 0));
    assert_eq!(res.attributes, vec![attr("method", "set_config")]);
    assert!(res.messages.is_empty());
    assert_eq!(res.events.len(), 1);
    let event = &res.events[0];
    assert_eq!(event.ty, "set_config");
    let mut onchain = vec![1u8];
    onchain.extend_from_slice(&1i128.to_be_bytes());
    onchain.extend_from_slice(&1_000_000_000i128.to_be_bytes());
    assert_eq!(
        event.attributes,
        vec![
            attr("previous_config_block_number", "0"),
            attr("latest_config_digest", &hex::encode(config.latest_config_digest)),
            attr("config_count", "1"),
            attr("signers", &"01".repeat(32)),
            attr("signers", &"02".repeat(32)),
            attr("signers", &"ab".repeat(32)),
            attr("signers", &"04".repeat(32)),
            attr("transmitters", "delta"),
            attr("transmitters", "alpha"),
            attr("transmitters", "charlie"),
            attr("transmitters", "bravo"),
            attr("f", "1"),
            attr("onchain_config", &hex::encode(onchain)),
            attr("offchain_config_version", "1"),
            attr("offchain_config", "040506"),
        ]
    );
    // the transmitters are kept in the order of their addresses
    match query(&deps, mock_env(), QueryMsg::Transmitters, &no_answers()).unwrap() {
        QueryResponse::Transmitters(t) => {
            assert_eq!(t.addresses, vec!["alpha", "bravo", "charlie", "delta"])
        }
        other => panic!("not transmitters: {:?}", other),
    }
    for i in 0..4 {
        assert_eq!(*deps.transmitters.value(i), Transmitter { payment: 0, from_round_id: 0 });
    }
    assert_eq!(deps.signers, signers);
    // the digest is that of the data
    let oracles: Vec<(Vec<u8>, String)> =
        signers.iter().cloned().zip(transmitters.iter().cloned()).collect();
    let digest = config_digest_from_data(
        "cosmos-testnet-14002",
        &CONTRACT.to_string(),
        1,
        &oracles,
        1,
        &[],
        1,
        &[4, 5, 6],
    );
    assert_eq!(config.latest_config_digest, digest);
    // a second configuration counts on
    run(&mut deps, OWNER, set_config_msg(signers, transmitters, 1)).unwrap();
    assert_eq!(deps.config.clone().unwrap().config_count, 2);
    assert_ne!(deps.config.clone().unwrap().latest_config_digest, digest);
}

#[test]
fn config_digest_is_the_tagged_hash_of_the_data() {
    let signers = vec![vec![7u8; 32], vec![9u8; 32]];
    let transmitters = vec!["transmitter0".to_string(), "transmitter1".to_string()];
    let oracles: Vec<(Vec<u8>, String)> =
        signers.iter().cloned().zip(transmitters.iter().cloned()).collect();
    let chain_id = "chain-1";
    let contract = "contract7".to_string();
    let onchain_config = vec![1u8, 2, 3];
    let offchain_config = vec![4u8, 5, 6, 7];
    let digest = config_digest_from_data(
        chain_id,
        &contract,
        0x01020304,
        &oracles,
        1,
        &onchain_config,
        0x0a0b0c0d0e0f1011,
        &offchain_config,
    );

    // the same hash, fed piece by piece
    let mut hasher = Blake2s::default();
    hasher.update((chain_id.len() as u8).to_be_bytes());
    hasher.update(chain_id.as_bytes());
    hasher.update(contract.as_bytes());
    hasher.update(0x01020304u32.to_be_bytes());
    hasher.update([oracles.len() as u8]);
    for (signer, _) in &oracles {
        hasher.update(signer);
    }
    for (_, transmitter) in &oracles {
        hasher.update(transmitter.as_bytes());
    }
    hasher.update([1u8]);
    hasher.update((onchain_config.len() as u32).to_be_bytes());
    hasher.update(&onchain_config);
    hasher.update(0x0a0b0c0d0e0f1011u64.to_be_bytes());
    hasher.update((offchain_config.len() as u32).to_be_bytes());
    hasher.update(&offchain_config);
    let result = hasher.finalize();
    let mut expected: [u8; 32] = result.into();
    // prefix masking
    expected[0] = 0x00;
    expected[1] = 0x02;
    assert_eq!(digest, expected);

    // the same data, the same digest
    let again = config_digest_from_data(
        chain_id,
        &contract,
        0x01020304,
        &oracles,
        1,
        &onchain_config,
        0x0a0b0c0d0e0f1011,
        &offchain_config,
    );
    assert_eq!(digest, again);
    // other data, another digest
    let other = config_digest_from_data(
        chain_id,
        &contract,
        0x01020305,
        &oracles,
        1,
        &onchain_config,
        0x0a0b0c0d0e0f1011,
        &offchain_config,
    );
    assert_ne!(digest, other);
    assert_eq!(&other[..2], &[0x00, 0x02]);
    // no oracles, nothing configured, the longest chain id
    let empty: Vec<(Vec<u8>, String)> = vec![];
    let long = "a".repeat(255);
    let digest = config_digest_from_data(&long, &"test".to_string(), 1, &empty, 1, &[], 1, &[]);
    let mut hasher = Blake2s::default();
    hasher.update([255u8]);
    hasher.update(long.as_bytes());
    hasher.update(b"test");
    hasher.update(1u32.to_be_bytes());
    hasher.update([0u8]);
    hasher.update([1u8]);
    hasher.update(0u32.to_be_bytes());
    hasher.update(1u64.to_be_bytes());
    hasher.update(0u32.to_be_bytes());
    let mut expected: [u8; 32] = hasher.finalize().into();
    expected[0] = 0x00;
    expected[1] = 0x02;
    assert_eq!(digest, expected);
}

#[test]
fn proposal_digest_is_the_hash_of_the_proposal() {
    let proposal = Proposal {
        owner: "owner".to_string(),
        finalized: false,
        oracles: vec![
            (vec![1u8; 32], "t0".to_string(), "p0".to_string()),
            (vec![2u8; 32], "t1".to_string(), "p1".to_string()),
        ],
        f: 1,
        offchain_config_version: 7,
        offchain_config: vec![9, 8, 7],
    };
    let mut hasher = Blake2s::default();
    hasher.update([2u8]);
    for (signer, transmitter, payee) in &proposal.oracles {
        hasher.update(signer);
        hasher.update(transmitter.as_bytes());
        hasher.update(payee.as_bytes());
    }
    hasher.update([1u8]);
    hasher.update(7u64.to_be_bytes());
    hasher.update(3u32.to_be_bytes());
    hasher.update([9u8, 8, 7]);
    let expected: [u8; 32] = hasher.finalize().into();
    assert_eq!(proposal.digest(), expected);
    assert_eq!(proposal.duplicate(), proposal);
}

#[test]
fn onchain_config_is_sign_extended() {
    let mut deps = setup();
    let mut config: Config = deps.config.take().unwrap();
    config.min_answer = -2;
    config.max_answer = 3;
    let bytes = config.onchain_config();
    assert_eq!(bytes.len(), 49);
    assert_eq!(bytes[0], 1);
    assert_eq!(&bytes[1..9], &[0xFF; 8]);
    assert_eq!(&bytes[9..25], &(-2i128).to_be_bytes());
    assert_eq!(&bytes[25..33], &[0x00; 8]);
    assert_eq!(&bytes[33..49], &3i128.to_be_bytes());
    config.min_answer = i128::MIN;
    config.max_answer = i128::MAX;
    let bytes = config.onchain_config();
    assert_eq!(&bytes[1..9], &[0xFF; 8]);
    assert_eq!(&bytes[9..25], &i128::MIN.to_be_bytes());
    assert_eq!(&bytes[25..33], &[0x00; 8]);
    assert_eq!(&bytes[33..49], &i128::MAX.to_be_bytes());
    config.min_answer = 0;
    assert_eq!(&config.onchain_config()[1..25], &[0u8; 24]);
}

#[test]
fn decode_report_rules() {
    // too short for the header
    assert_eq!(decode_report(&[0u8; 36]).unwrap_err(), ContractError::InvalidInput);
    assert_eq!(decode_report(&[]).unwrap_err(), ContractError::InvalidInput);
    // no observations: the header and the price
    let report = decode_report(&[0u8; 53]).unwrap();
    assert!(report.observations.is_empty());
    assert_eq!(report.juels_per_luna, 0);
    // the length must fit the count
    assert_eq!(decode_report(&[0u8; 54]).unwrap_err(), ContractError::InvalidInput);
    assert_eq!(decode_report(&[0u8; 37]).unwrap_err(), ContractError::InvalidInput);
    let mut raw = vec![0u8; 37 + 16 * 2 + 16];
    raw[36] = 3;
    assert_eq!(decode_report(&raw).unwrap_err(), ContractError::InvalidInput);
    raw[36] = 2;
    // signed numbers in two's complement, big endian
    raw[0..4].copy_from_slice(&0xfffefdfcu32.to_be_bytes());
    for i in 0..32 {
        raw[4 + i] = 100 + i as u8;
    }
    raw[37..53].copy_from_slice(&(-1i128).to_be_bytes());
    raw[53..69].copy_from_slice(&i128::MIN.to_be_bytes());
    raw[69..85].copy_from_slice(&u128::MAX.to_be_bytes());
    let report = decode_report(&raw).unwrap();
    assert_eq!(report.observations_timestamp, 0xfffefdfc);
    assert_eq!(report.observations, vec![-1, i128::MIN]);
    assert_eq!(report.juels_per_luna, u128::MAX);
    let observers: Vec<u8> = (100..131).collect();
    assert_eq!(report.observers.to_vec(), observers);
    raw[37..53].copy_from_slice(&i128::MAX.to_be_bytes());
    raw[53..69].copy_from_slice(&0x0102030405060708090a0b0c0d0e0f10i128.to_be_bytes());
    let report = decode_report(&raw).unwrap();
    assert_eq!(report.observations, vec![i128::MAX, 0x0102030405060708090a0b0c0d0e0f10]);
    // the most observations a byte can count
    let mut raw = vec![0u8; 37 + 16 * 255 + 16];
    raw[36] = 255;
    assert_eq!(decode_report(&raw).unwrap().observations.len(), 255);
}

#[test]
fn reimbursement_formula() {
    let price = Decimal::raw(11_330_000_000_000_000); // 0.01133
    let billing = Billing {
        recommended_gas_price_micro: price,
        observation_payment_gjuels: 5,
        transmission_payment_gjuels: 0,
        ..Default::default()
    };
    let juels_per_coin = 1_000_000_000_000_000_000u128;
    // (17000 * 2 + 84000) * 1.4 * 0.01133 / 10^6
    assert_eq!(calculate_reimbursement(&billing, juels_per_coin, 2), Ok(1_871_716_000_000_000));
    // (17000 * 0 + 84000) * 1.4 * 0.01133 / 10^6
    assert_eq!(calculate_reimbursement(&billing, juels_per_coin, 0), Ok(1_332_408_000_000_000));
    // the gas can be named
    let named = Billing {
        gas_base: Some(1000),
        gas_per_signature: Some(10),
        gas_adjustment: Some(100),
        ..billing
    };
    // (10 * 3 + 1000) * 1.0 * 0.01133 / 10^6 coins, at 10^18 juels a coin
    assert_eq!(calculate_reimbursement(&named, juels_per_coin, 3), Ok(11_669_900_000_000));
    // each product is rounded down: 1030 * 0.5 (in atomic units of the price) is 0, then times 3
    let tiny = Billing { recommended_gas_price_micro: Decimal::raw(1), ..named };
    assert_eq!(calculate_reimbursement(&tiny, 3_000_000_000_000_000_000, 3), Ok(0));
    assert_eq!(calculate_reimbursement(&tiny, u128::MAX, 3), Ok(350490837928566617));
    // no price, nothing to reimburse
    assert_eq!(calculate_reimbursement(&Billing::default(), juels_per_coin, 2), Ok(0));
    // a price that leaves the range
    let dear = Billing { recommended_gas_price_micro: Decimal::raw(u128::MAX), ..billing };
    assert_eq!(
        calculate_reimbursement(&dear, juels_per_coin, 2),
        Err(ContractError::Overflow)
    );
    let high = Billing { gas_base: Some(u64::MAX), gas_per_signature: Some(u64::MAX), ..billing };
    assert_eq!(
        calculate_reimbursement(&high, juels_per_coin, usize::MAX),
        Err(ContractError::Overflow)
    );
    // the payments per observation and per transmission do not enter it
    let paid = Billing { observation_payment_gjuels: 5, transmission_payment_gjuels: 7, ..billing };
    assert_eq!(calculate_reimbursement(&paid, juels_per_coin, 2), Ok(1_871_716_000_000_000));
}

fn config_with(billing: Billing, latest: u32) -> Config {
    let mut deps = setup();
    let mut config = deps.config.take().unwrap();
    config.billing = billing;
    config.latest_aggregator_round_id = latest;
    config
}

#[test]
fn owed_payment_formula() {
    let billing = Billing { observation_payment_gjuels: 5, ..Default::default() };
    let config = config_with(billing, 10);
    assert_eq!(
        owed_payment(&config, &Transmitter { payment: 7, from_round_id: 4 }),
        Ok(6 * 5_000_000_000 + 7)
    );
    assert_eq!(owed_payment(&config, &Transmitter { payment: 0, from_round_id: 10 }), Ok(0));
    assert_eq!(
        owed_payment(&config, &Transmitter { payment: u128::MAX, from_round_id: 10 }),
        Ok(u128::MAX)
    );
    assert_eq!(
        owed_payment(&config, &Transmitter { payment: u128::MAX, from_round_id: 9 }),
        Err(StdError::Overflow)
    );
    let most = Billing { observation_payment_gjuels: u64::MAX, ..Default::default() };
    let config = config_with(most, u32::MAX);
    assert_eq!(
        owed_payment(&config, &Transmitter { payment: 1, from_round_id: 0 }),
        Ok((u64::MAX as u128) * 1_000_000_000 * (u32::MAX as u128) + 1)
    );
}

fn table_of(entries: &[(&str, u128, u32)]) -> Table<Transmitter> {
    let mut table = Table::new();
    for (name, payment, from_round_id) in entries {
        table.insert(name.to_string(), Transmitter { payment: *payment, from_round_id: *from_round_id });
    }
    table
}

fn payees_of(entries: &[(&str, &str)]) -> Table<String> {
    let mut table = Table::new();
    for (name, payee) in entries {
        table.insert(name.to_string(), payee.to_string());
    }
    table
}

#[test]
fn pay_oracles_pays_in_order_and_skips_zero() {
    let billing = Billing { observation_payment_gjuels: 1, ..Default::default() };
    let config = config_with(billing, 3);
    let mut transmitters = table_of(&[("c", 5, 3), ("a", 0, 1), ("b", 0, 3), ("d", 9, 0)]);
    let payees = payees_of(&[("a", "pa"), ("c", "pc"), ("d", "pd")]);
    assert_eq!(total_link_due(&transmitters, &config), Ok(5 * 1_000_000_000 + 14));
    let (total, response) = pay_oracles(&mut transmitters, &payees, &config, Response::new()).unwrap();
    assert_eq!(total, 2_000_000_000 + 5 + 3_000_000_009);
    assert_eq!(
        response.messages,
        vec![
            Message::Transfer {
                token: "LINK".to_string(),
                recipient: "pa".to_string(),
                amount: 2_000_000_000
            },
            Message::Transfer { token: "LINK".to_string(), recipient: "pc".to_string(), amount: 5 },
            Message::Transfer {
                token: "LINK".to_string(),
                recipient: "pd".to_string(),
                amount: 3_000_000_009
            },
        ]
    );
    // all accounts are settled; the one that was owed nothing is as it was
    let fresh = Transmitter { payment: 0, from_round_id: 3 };
    assert_eq!(transmitters, table_of(&[("a", 0, 3), ("b", 0, 3), ("c", 0, 3), ("d", 0, 3)]));
    assert_eq!(*transmitters.get("b").unwrap(), fresh);
    assert_eq!(total_link_due(&transmitters, &config), Ok(0));
    // a second payment pays nothing
    let (total, response) = pay_oracles(&mut transmitters, &payees, &config, Response::new()).unwrap();
    assert_eq!(total, 0);
    assert!(response.messages.is_empty());
}

#[test]
fn pay_oracles_fails_as_a_whole() {
    let billing = Billing { observation_payment_gjuels: 1, ..Default::default() };
    let config = config_with(billing, 3);
    // `b` is owed something and has no payee
    let mut transmitters = table_of(&[("a", 1, 3), ("b", 1, 3), ("c", 1, 3)]);
    let before = transmitters.clone();
    let payees = payees_of(&[("a", "pa"), ("c", "pc")]);
    let err = pay_oracles(&mut transmitters, &payees, &config, Response::new()).unwrap_err();
    assert_eq!(err, ContractError::Std(StdError::NotFound));
    assert_eq!(transmitters, before);
    // one that is owed nothing needs no payee
    let mut transmitters = table_of(&[("a", 1, 3), ("b", 0, 3), ("c", 1, 3)]);
    assert!(pay_oracles(&mut transmitters, &payees, &config, Response::new()).is_ok());
    // the sum of the payments leaves the range
    let mut transmitters = table_of(&[("a", u128::MAX, 3), ("c", 1, 3)]);
    let before = transmitters.clone();
    let err = pay_oracles(&mut transmitters, &payees, &config, Response::new()).unwrap_err();
    assert_eq!(err, ContractError::Overflow);
    assert_eq!(transmitters, before);
    assert_eq!(total_link_due(&transmitters, &config), Err(StdError::Overflow));
    // what one is owed leaves the range
    let mut transmitters = table_of(&[("a", u128::MAX, 2)]);
    let err = pay_oracles(&mut transmitters, &payees, &config, Response::new()).unwrap_err();
    assert_eq!(err, ContractError::Std(StdError::Overflow));
}

struct Committee {
    deps: Storage,
    digest: [u8; 32],
}

fn with_committee(n: usize, f: u8) -> (Committee, Vec<SigningKey>) {
    let mut deps = setup();
    let (keypairs, signers, transmitters) = committee(n);
    run(&mut deps, OWNER, set_config_msg(signers, transmitters, f)).unwrap();
    let digest = deps.config.clone().unwrap().latest_config_digest;
    (Committee { deps, digest }, keypairs)
}

fn context(digest: &[u8; 32], epoch: u32, round: u8) -> Vec<u8> {
    let mut context = vec![0u8; 96];
    context[..32].copy_from_slice(digest);
    context[59..63].copy_from_slice(&epoch.to_be_bytes());
    context[63] = round;
    context
}

fn report_of(observations: &[i128], juels: u128) -> Vec<u8> {
    let mut report = Vec::new();
    report.extend_from_slice(&[97, 91, 43, 83]);
    report.extend_from_slice(&[0u8; 32]);
    report.push(observations.len() as u8);
    for observation in observations {
        report.extend_from_slice(&observation.to_be_bytes());
    }
    report.extend_from_slice(&juels.to_be_bytes());
    report
}

fn signed(keypairs: &[&SigningKey], report: &[u8], context: &[u8]) -> Vec<Vec<u8>> {
    let mut hasher = Blake2s::default();
    hasher.update((report.len() as u32).to_be_bytes());
    hasher.update(report);
    hasher.update(context);
    let hash = hasher.finalize();
    keypairs
        .iter()
        .map(|sk| {
            let sig_bytes: [u8; 64] = sk.sign(&hash).into();
            let pk_bytes: [u8; 32] = VerificationKey::from(*sk).into();
            let mut result = pk_bytes.to_vec();
            result.extend_from_slice(&sig_bytes);
            result
        })
        .collect()
}

fn transmit(
    c: &mut Committee,
    sender: &str,
    context: Vec<u8>,
    report: Vec<u8>,
    signatures: Vec<Vec<u8>>,
) -> Result<Response, ContractError> {
    run(&mut c.deps, sender, ExecuteMsg::Transmit { report_context: context, report, signatures })
}

#[test]
fn transmit_rules() {
    let (mut c, keypairs) = with_committee(4, 1);
    let digest = c.digest;
    let report = report_of(&[10, 20, 30, 40], 0);
    let good = context(&digest, 1, 1);
    let two = [&keypairs[0], &keypairs[1]];
    let signatures = signed(&two, &report, &good);

    // a context of another length
    let err = transmit(&mut c, "transmitter0", good[..95].to_vec(), report.clone(), signatures.clone())
        .unwrap_err();
    assert_eq!(err, ContractError::InvalidInput);
    // a signature of another length
    let mut short = signatures.clone();
    short[1].pop();
    let err = transmit(&mut c, "transmitter0", good.clone(), report.clone(), short).unwrap_err();
    assert_eq!(err, ContractError::InvalidInput);
    // epoch 0 round 0 is not after the start
    let stale = context(&digest, 0, 0);
    let err = transmit(&mut c, "transmitter0", stale.clone(), report.clone(), signed(&two, &report, &stale))
        .unwrap_err();
    assert_eq!(err, ContractError::StaleReport);
    // not a transmitter
    let err = transmit(&mut c, "stranger", good.clone(), report.clone(), signatures.clone()).unwrap_err();
    assert_eq!(err, ContractError::Unauthorized);
    // another configuration's digest
    let mut other = digest;
    other[5] ^= 1;
    let wrong = context(&other, 1, 1);
    let err = transmit(&mut c, "transmitter0", wrong.clone(), report.clone(), signed(&two, &report, &wrong))
        .unwrap_err();
    assert_eq!(err, ContractError::DigestMismatch);
    // f + 1 signatures, no fewer and no more
    let one = [&keypairs[0]];
    let err = transmit(&mut c, "transmitter0", good.clone(), report.clone(), signed(&one, &report, &good))
        .unwrap_err();
    assert_eq!(err, ContractError::WrongNumberOfSignatures);
    let three = [&keypairs[0], &keypairs[1], &keypairs[2]];
    let err = transmit(&mut c, "transmitter0", good.clone(), report.clone(), signed(&three, &report, &good))
        .unwrap_err();
    assert_eq!(err, ContractError::WrongNumberOfSignatures);
    // a signature by one who is no signer
    let outsider = SigningKey::new(thread_rng());
    let mixed = [&keypairs[0], &outsider];
    let err = transmit(&mut c, "transmitter0", good.clone(), report.clone(), signed(&mixed, &report, &good))
        .unwrap_err();
    assert_eq!(err, ContractError::Unauthorized);
    // two signatures by one signer
    let twice = [&keypairs[1], &keypairs[1]];
    let err = transmit(&mut c, "transmitter0", good.clone(), report.clone(), signed(&twice, &report, &good))
        .unwrap_err();
    assert_eq!(err, ContractError::RepeatedAddress);
    // signatures over another report
    let other_report = report_of(&[10, 20, 31, 40], 0);
    let err = transmit(
        &mut c,
        "transmitter0",
        good.clone(),
        report.clone(),
        signed(&two, &other_report, &good),
    )
    .unwrap_err();
    assert_eq!(err, ContractError::InvalidSignature);
    // a report of the wrong length
    let mut long = report.clone();
    long.push(0);
    let err = transmit(&mut c, "transmitter0", good.clone(), long.clone(), signed(&two, &long, &good))
        .unwrap_err();
    assert_eq!(err, ContractError::InvalidInput);
    // no more observations than faults to bear
    let few = report_of(&[10], 0);
    let err = transmit(&mut c, "transmitter0", good.clone(), few.clone(), signed(&two, &few, &good))
        .unwrap_err();
    assert_eq!(err, ContractError::InvalidInput);
    // more observations than oracles there can be
    let many = report_of(&[10; 32], 0);
    let err = transmit(&mut c, "transmitter0", good.clone(), many.clone(), signed(&two, &many, &good))
        .unwrap_err();
    assert_eq!(err, ContractError::InvalidInput);
    // the median out of range: above, below
    let high = report_of(&[1, 2, 1_000_000_001, 1_000_000_002], 0);
    let err = transmit(&mut c, "transmitter0", good.clone(), high.clone(), signed(&two, &high, &good))
        .unwrap_err();
    assert_eq!(err, ContractError::MedianOutOfRange);
    let low = report_of(&[-5, 0, 0, 7], 0);
    let err = transmit(&mut c, "transmitter0", good.clone(), low.clone(), signed(&two, &low, &good))
        .unwrap_err();
    assert_eq!(err, ContractError::MedianOutOfRange);
    // nothing of all this has opened a round
    assert_eq!(c.deps.config.clone().unwrap().latest_aggregator_round_id, 0);
    assert!(c.deps.transmissions.is_empty());
    // the upper of the two in the middle is the answer; the bounds are within range
    let edge = report_of(&[1, 2, 1_000_000_000, 1_000_000_002], 0);
    transmit(&mut c, "transmitter0", good.clone(), edge.clone(), signed(&two, &edge, &good)).unwrap();
    assert_eq!(c.deps.transmissions[0].answer, 1_000_000_000);
    let next = context(&digest, 1, 2);
    let edge = report_of(&[0, 0, 1, 1, 7], 0);
    transmit(&mut c, "transmitter3", next.clone(), edge.clone(), signed(&two, &edge, &next)).unwrap();
    assert_eq!(c.deps.transmissions[1].answer, 1);
    assert_eq!(c.deps.config.clone().unwrap().latest_aggregator_round_id, 2);
    assert_eq!((c.deps.config.clone().unwrap().epoch, c.deps.config.clone().unwrap().round), (1, 2));
}

#[test]
fn transmit_response_and_payment() {
    let (mut c, keypairs) = with_committee(4, 1);
    let digest = c.digest;
    run(
        &mut c.deps,
        OWNER,
        ExecuteMsg::SetBilling {
            config: Billing {
                recommended_gas_price_micro: Decimal::raw(11_330_000_000_000_000),
                observation_payment_gjuels: 5,
                transmission_payment_gjuels: 3,
                ..Default::default()
            },
        },
    )
    .unwrap();
    let mut report = report_of(&[-7, 234567890, 1234567891], 1_000_000_000_000_000_000);
    for i in 0..32 {
        report[4 + i] = i as u8;
    }
    let context = context(&digest, 0x01020304, 5);
    let three = [&keypairs[3], &keypairs[0]];
    let signatures = signed(&three, &report, &context);
    let res = transmit(&mut c, "transmitter2", context, report, signatures).unwrap();
    let observers: Vec<u8> = (0..31).collect();
    assert_eq!(res.attributes, vec![attr("method", "transmit"), attr("method", "transmit")]);
    assert!(res.messages.is_empty());
    assert_eq!(
        res.events,
        vec![
            Event {
                ty: "transmitted".to_string(),
                attributes: vec![
                    attr("config_digest", &hex::encode(digest)),
                    attr("epoch", "16909060"),
                ]
            },
            Event {
                ty: "new_transmission".to_string(),
                attributes: vec![
                    attr("aggregator_round_id", "1"),
                    attr("answer", "234567890"),
                    attr("transmitter", "transmitter2"),
                    attr("observations_timestamp", "1633364819"),
                    attr("observers", &hex::encode(observers)),
                    attr("juels_per_luna", "1000000000000000000"),
                    attr("config_digest", &hex::encode(digest)),
                    attr("epoch", "16909060"),
                    attr("round", "5"),
                    attr("observations", "-7"),
                    attr("observations", "234567890"),
                    attr("observations", "1234567891"),
                ]
            },
        ]
    );
    // the transmitter is credited the reimbursement of its gas, and nothing else
    assert_eq!(
        *c.deps.transmitters.get("transmitter2").unwrap(),
        Transmitter { payment: 1_871_716_000_000_000, from_round_id: 0 }
    );
    assert_eq!(
        *c.deps.transmitters.get("transmitter0").unwrap(),
        Transmitter { payment: 0, from_round_id: 0 }
    );
    let transmission = c.deps.transmissions[0];
    assert_eq!(transmission.answer, 234567890);
    assert_eq!(transmission.observations_timestamp, 1633364819);
    assert_eq!(transmission.transmission_timestamp, 1571797419);
}

#[test]
fn transmit_payment_overflow_rejects_the_report() {
    let (mut c, keypairs) = with_committee(4, 1);
    let digest = c.digest;
    run(
        &mut c.deps,
        OWNER,
        ExecuteMsg::SetBilling {
            config: Billing {
                recommended_gas_price_micro: Decimal::raw(11_330_000_000_000_000),
                ..Default::default()
            },
        },
    )
    .unwrap();
    let report = report_of(&[10, 20, 30], u128::MAX);
    let context = context(&digest, 1, 1);
    let two = [&keypairs[0], &keypairs[1]];
    let signatures = signed(&two, &report, &context);
    let err = transmit(&mut c, "transmitter0", context, report, signatures).unwrap_err();
    assert_eq!(err, ContractError::Overflow);
}

#[test]
fn verdict_decides_after_the_checks() {
    let (mut c, keypairs) = with_committee(4, 1);
    let digest = c.digest;
    let report = report_of(&[10, 20, 30], 0);
    let good = context(&digest, 1, 1);
    let two = [&keypairs[1], &keypairs[0]];
    let signatures = signed(&two, &report, &good);
    let info = mock_info("transmitter0");
    let sized = signatures_from(&signatures).unwrap();

    // what is handed to verification: the hash and the keys in their order
    let (hash, sigs, pkeys) =
        verification_input(&c.deps, &info, &good, &report, &sized).unwrap();
    let mut hasher = Blake2s::default();
    hasher.update((report.len() as u32).to_be_bytes());
    hasher.update(&report);
    hasher.update(&good);
    assert_eq!(hash, hasher.finalize().to_vec());
    let mut by_key = signatures.clone();
    by_key.sort_by(|a, b| a[..32].cmp(&b[..32]));
    assert_eq!(pkeys, by_key.iter().map(|s| s[..32].to_vec()).collect::<Vec<_>>());
    assert_eq!(sigs, by_key.iter().map(|s| s[32..].to_vec()).collect::<Vec<_>>());
    assert!(pkeys[0] < pkeys[1]);

    let before = c.deps.clone();
    let err = transmit_with_verdict(
        &mut c.deps,
        mock_env(),
        info.clone(),
        good.clone(),
        report.clone(),
        sized.clone(),
        None,
    )
    .unwrap_err();
    assert_eq!(err, ContractError::Verification);
    let err = transmit_with_verdict(
        &mut c.deps,
        mock_env(),
        info.clone(),
        good.clone(),
        report.clone(),
        sized.clone(),
        Some(false),
    )
    .unwrap_err();
    assert_eq!(err, ContractError::InvalidSignature);
    assert!(c.deps == before);
    // a failed check comes first, whatever the verdict
    let stale = context(&digest, 0, 0);
    let err = transmit_with_verdict(
        &mut c.deps,
        mock_env(),
        info.clone(),
        stale.clone(),
        report.clone(),
        sized.clone(),
        Some(true),
    )
    .unwrap_err();
    assert_eq!(err, ContractError::StaleReport);
    assert_eq!(
        verification_input(&c.deps, &info, &stale, &report, &sized).unwrap_err(),
        ContractError::StaleReport
    );
    transmit_with_verdict(
        &mut c.deps,
        mock_env(),
        info.clone(),
        good.clone(),
        report.clone(),
        sized.clone(),
        Some(true),
    )
    .unwrap();
    assert_eq!(c.deps.transmissions.len(), 1);
    // and the real verification agrees
    let next = context(&digest, 1, 2);
    let signatures = signatures_from(&signed(&two, &report, &next)).unwrap();
    execute_transmit(&mut c.deps, mock_env(), info, next, report, signatures).unwrap();
    assert_eq!(c.deps.transmissions.len(), 2);
}

#[test]
fn signatures_of_a_message_have_96_bytes() {
    let one: Vec<u8> = (0..96).collect();
    let two: Vec<u8> = (100..196).collect();
    let sized = signatures_from(&vec![one.clone(), two.clone()]).unwrap();
    assert_eq!(sized.len(), 2);
    assert_eq!(sized[0].to_vec(), one);
    assert_eq!(sized[1].to_vec(), two);
    assert_eq!(signatures_from(&vec![]), Ok(vec![]));
    assert_eq!(signatures_from(&vec![one.clone(), vec![0; 95]]), Err(ContractError::InvalidInput));
    assert_eq!(signatures_from(&vec![vec![0; 97], two]), Err(ContractError::InvalidInput));
    assert_eq!(signatures_from(&vec![vec![]]), Err(ContractError::InvalidInput));
}

#[test]
fn stale_report_is_rejected_whatever_its_signatures() {
    let (mut c, keypairs) = with_committee(4, 1);
    let digest = c.digest;
    let report = report_of(&[10, 20, 30], 0);
    let first = context(&digest, 2, 3);
    let two = [&keypairs[0], &keypairs[1]];
    transmit(&mut c, "transmitter0", first.clone(), report.clone(), signed(&two, &report, &first))
        .unwrap();
    let before = c.deps.clone();

    // the same report again, an earlier round, an earlier epoch
    for (epoch, round) in [(2, 3), (2, 2), (1, 200), (0, 0)] {
        let stale = context(&digest, epoch, round);
        let valid = signatures_from(&signed(&two, &report, &stale)).unwrap();
        for signatures in [valid, vec![], vec![[0u8; 96]], vec![[7u8; 96]; 5]] {
            for sender in ["transmitter0", "stranger"] {
                let err = execute_transmit(
                    &mut c.deps,
                    mock_env(),
                    mock_info(sender),
                    stale.clone(),
                    vec![1, 2, 3],
                    signatures.clone(),
                )
                .unwrap_err();
                assert_eq!(err, ContractError::StaleReport);
                assert!(c.deps == before);
            }
        }
        // with another digest too
        let mut other = stale.clone();
        other[0] ^= 0xff;
        let err =
            execute_transmit(&mut c.deps, mock_env(), mock_info("transmitter0"), other, vec![], vec![])
                .unwrap_err();
        assert_eq!(err, ContractError::StaleReport);
    }
    // a context of another length is no report at all
    let err = execute_transmit(
        &mut c.deps,
        mock_env(),
        mock_info("transmitter0"),
        vec![0; 95],
        report.clone(),
        vec![],
    )
    .unwrap_err();
    assert_eq!(err, ContractError::InvalidInput);
    // in a message, a signature of another length is refused before anything else
    let stale = context(&digest, 0, 0);
    let err = run(
        &mut c.deps,
        "transmitter0",
        ExecuteMsg::Transmit {
            report_context: stale.clone(),
            report: report.clone(),
            signatures: vec![vec![0; 95]],
        },
    )
    .unwrap_err();
    assert_eq!(err, ContractError::InvalidInput);
    let err = run(
        &mut c.deps,
        "transmitter0",
        ExecuteMsg::Transmit { report_context: stale, report, signatures: vec![vec![0; 96]] },
    )
    .unwrap_err();
    assert_eq!(err, ContractError::StaleReport);
    assert!(c.deps == before);
}

#[test]
fn validator_is_told_from_the_second_round_on() {
    let (mut c, keypairs) = with_committee(4, 1);
    let digest = c.digest;
    let res = run(
        &mut c.deps,
        OWNER,
        ExecuteMsg::SetValidatorConfig {
            config: Some(Validator { address: "validator".to_string(), gas_limit: 77 }),
        },
    )
    .unwrap();
    assert_eq!(res.attributes, vec![attr("new_validator", "validator"), attr("new_gas_limit", "77")]);
    let two = [&keypairs[0], &keypairs[1]];
    let report = report_of(&[10, 20, 30], 0);
    let first = context(&digest, 1, 1);
    let res =
        transmit(&mut c, "transmitter0", first.clone(), report.clone(), signed(&two, &report, &first))
            .unwrap();
    assert!(res.messages.is_empty());
    let report = report_of(&[10, 25, 30], 0);
    let second = context(&digest, 2, 0);
    let res =
        transmit(&mut c, "transmitter0", second.clone(), report.clone(), signed(&two, &report, &second))
            .unwrap();
    assert_eq!(
        res.messages,
        vec![Message::Validate {
            validator: "validator".to_string(),
            gas_limit: 77,
            previous_round_id: 1,
            previous_answer: 20,
            round_id: 2,
            answer: 25,
        }]
    );
    let res = run(&mut c.deps, OWNER, ExecuteMsg::SetValidatorConfig { config: None }).unwrap();
    assert_eq!(
        res.attributes,
        vec![attr("previous_validator", "validator"), attr("previous_gas_limit", "77")]
    );
    let err = run(&mut c.deps, "stranger", ExecuteMsg::SetValidatorConfig { config: None }).unwrap_err();
    assert_eq!(err, ContractError::Unauthorized);
}

#[test]
fn ownership_of_the_aggregator() {
    let mut deps = setup();
    let err = run(&mut deps, "stranger", ExecuteMsg::TransferOwnership { to: "next".to_string() })
        .unwrap_err();
    assert_eq!(err, ContractError::OwnedError(OwnedError::Unauthorized));
    run(&mut deps, OWNER, ExecuteMsg::TransferOwnership { to: "next".to_string() }).unwrap();
    let err = run(&mut deps, OWNER, ExecuteMsg::AcceptOwnership).unwrap_err();
    assert_eq!(err, ContractError::OwnedError(OwnedError::Unauthorized));
    run(&mut deps, "next", ExecuteMsg::AcceptOwnership).unwrap();
    assert_eq!(
        query(&deps, mock_env(), QueryMsg::Owner, &no_answers()).unwrap(),
        QueryResponse::Owner("next".to_string())
    );
    let mut signers = Vec::new();
    for i in 0..4u8 {
        signers.push(vec![i; 32]);
    }
    let transmitters: Vec<String> = (0..4).map(|i| format!("t{}", i)).collect();
    let err = execute_set_config(
        &mut deps,
        mock_env(),
        mock_info(OWNER),
        signers,
        transmitters,
        1,
        vec![],
        1,
        vec![1],
    )
    .unwrap_err();
    assert_eq!(err, ContractError::Unauthorized);
}

#[test]
fn error_texts() {
    assert_eq!(ContractError::Unauthorized.to_string(), "Unauthorized");
    assert_eq!(ContractError::TooManySigners.to_string(), "too many signers");
    assert_eq!(ContractError::StaleReport.to_string(), "stale report");
    assert_eq!(ContractError::DigestMismatch.to_string(), "config digest mismatch");
    assert_eq!(ContractError::WrongNumberOfSignatures.to_string(), "wrong number of signatures");
    assert_eq!(ContractError::RepeatedAddress.to_string(), "repeated address");
    assert_eq!(ContractError::InvalidSignature.to_string(), "invalid signature");
    assert_eq!(ContractError::InvalidInput.to_string(), "invalid input");
    assert_eq!(ContractError::PayeeAlreadySet.to_string(), "payee already set");
    assert_eq!(ContractError::TransferToSelf.to_string(), "cannot transfer to self");
    assert_eq!(ContractError::MedianOutOfRange.to_string(), "median is out of min-max range");
    assert_eq!(ContractError::Std(StdError::NotFound).to_string(), "not found");
    assert_eq!(ContractError::OwnedError(OwnedError::Unauthorized).to_string(), "Unauthorized");
}
