use oracle_contracts::deviation_flagging_validator::contract::{
    execute, instantiate, is_valid, query, query_flagging_threshold,
};
use oracle_contracts::deviation_flagging_validator::error::ContractError;
use oracle_contracts::deviation_flagging_validator::msg::{
    ExecuteMsg, FlaggingThresholdResponse, InstantiateMsg, QueryMsg, QueryResponse,
};
use oracle_contracts::deviation_flagging_validator::state::Storage;
use oracle_contracts::host::{Attribute, Env, Message, MessageInfo};

fn mock_env() -> Env {
    Env {
        block_height: 12345,
        block_time: 1571797419,
        chain_id: "cosmos-testnet-14002".to_string(),
        contract_address: "cosmos2contract".to_string(),
    }
}

fn mock_info(sender: &str) -> MessageInfo {
    MessageInfo { sender: sender.to_string() }
}

fn attr(key: &str, value: String) -> Attribute {
    Attribute { key: key.to_string(), value }
}

fn instantiated(threshold: u32) -> Storage {
    let mut deps = Storage::new();
    let msg = InstantiateMsg { flags: "flags".to_string(), flagging_threshold: threshold };
    // we can just call .unwrap() to assert this was a success
    let res = instantiate(&mut deps, mock_env(), mock_info("creator"), msg).unwrap();
    assert_eq!(0, res.messages.len());
    deps
}

#[test]
fn validator_proper_initialization() {
    instantiated(100000);
}

#[test]
fn setting_flags_address() {
    let mut deps = instantiated(100000);
    let info = mock_info("creator");

    let new_flags = "new_flags".to_string();
    let msg = ExecuteMsg::SetFlagsAddress { flags: new_flags.clone() };
    let res = execute(&mut deps, mock_env(), info, msg).unwrap();
    assert_eq!(0, res.messages.len());

    let flag_addr = deps.config.clone().unwrap().flags;
    assert_eq!(new_flags, flag_addr);
}

#[test]
fn setting_threshold() {
    let mut deps = instantiated(100000);
    let info = mock_info("creator");

    let msg = ExecuteMsg::SetFlaggingThreshold { threshold: 1000 };

    let _res = execute(&mut deps, mock_env(), info, msg).unwrap();

    let threshold = deps.config.clone().unwrap().flagging_threshold;
    assert_eq!(1000, threshold);
}

#[test]
fn is_valid_gives_right_response() {
    let flagging_threshold = 80000;

    let previous_answer = 100;
    let answer = 5;
    let check_valid = is_valid(flagging_threshold, previous_answer, answer).unwrap();
    assert_eq!(false, check_valid);

    // this input should return true
    let previous_answer = 3;
    let answer = 1;
    let check_valid = is_valid(flagging_threshold, previous_answer, answer).unwrap();
    assert_eq!(true, check_valid);

    // should return true if previous_answer is 0
    let previous_answer = 0;
    let answer = 5;
    let check_valid = is_valid(flagging_threshold, previous_answer, answer).unwrap();
    assert_eq!(true, check_valid);
}

#[test]
fn validate() {
    let mut deps = instantiated(80000);
    let info = mock_info("creator");

    let msg = ExecuteMsg::Validate {
        previous_round_id: 2,
        previous_answer: 3,
        answer: 1,
        round_id: 3,
    };

    // the case if validate is true
    let res = execute(&mut deps, mock_env(), info.clone(), msg).unwrap();
    assert_eq!(
        vec![attr("action", "validate".to_string()), attr("is_valid", true.to_string())],
        res.attributes
    );

    let msg = ExecuteMsg::Validate {
        previous_round_id: 2,
        previous_answer: 100,
        answer: 5,
        round_id: 3,
    };
    let res = execute(&mut deps, mock_env(), info.clone(), msg).unwrap();
    assert_eq!(
        vec![attr("action", "validate".to_string()), attr("is_valid", false.to_string())],
        res.attributes
    );

    // should not panic from overflow
    let msg = ExecuteMsg::Validate {
        previous_round_id: 2,
        previous_answer: i128::MIN,
        round_id: 3,
        answer: i128::MAX,
    };
    let res = execute(&mut deps, mock_env(), info, msg).unwrap();
    assert_eq!(
        vec![attr("action", "validate".to_string()), attr("is_valid", false.to_string())],
        res.attributes
    );
}

#[test]
fn test_query_flagging_threshold() {
    let deps = instantiated(80000);

    let flagging_threshold: u32 = query_flagging_threshold(&deps).unwrap().threshold;
    assert_eq!(80000 as u32, flagging_threshold);
}

#[test]
fn is_valid_at_the_edges() {
    // exactly at the threshold: |5 - 10| * 100000 / 10 = 50000
    assert_eq!(is_valid(50000, 10, 5).unwrap(), true);
    assert_eq!(is_valid(49999, 10, 5).unwrap(), false);
    // the ratio is rounded down: |1 - 3| * 100000 / 3 = 66666
    assert_eq!(is_valid(66666, 3, 1).unwrap(), true);
    assert_eq!(is_valid(66665, 3, 1).unwrap(), false);
    // negative previous answers count by their magnitude
    assert_eq!(is_valid(100000, -10, -20).unwrap(), true);
    assert_eq!(is_valid(99999, -10, -20).unwrap(), false);
    assert_eq!(is_valid(200000, -10, 10).unwrap(), true);
    // the scaled change does not fit 128 bits
    assert_eq!(is_valid(u32::MAX, i128::MIN, i128::MAX).unwrap(), false);
    assert_eq!(is_valid(u32::MAX, 1, i128::MAX).unwrap(), false);
    assert_eq!(is_valid(u32::MAX, i128::MIN, i128::MIN).unwrap(), true);
    assert_eq!(is_valid(0, i128::MIN, i128::MIN).unwrap(), true);
    // no previous answer
    assert_eq!(is_valid(0, 0, i128::MAX).unwrap(), true);
    assert_eq!(is_valid(0, 0, i128::MIN).unwrap(), true);
    // no change
    assert_eq!(is_valid(0, 7, 7).unwrap(), true);
}

#[test]
fn invalid_answer_raises_the_senders_flag() {
    let mut deps = instantiated(80000);
    let msg = ExecuteMsg::Validate {
        previous_round_id: 2,
        previous_answer: 100,
        answer: 5,
        round_id: 3,
    };
    let res = execute(&mut deps, mock_env(), mock_info("aggregator"), msg).unwrap();
    assert_eq!(
        res.messages,
        vec![Message::RaiseFlag { flags: "flags".to_string(), subject: "aggregator".to_string() }]
    );
    assert_eq!(res.data, Some(false));
    let msg = ExecuteMsg::Validate {
        previous_round_id: 2,
        previous_answer: 3,
        answer: 1,
        round_id: 3,
    };
    let res = execute(&mut deps, mock_env(), mock_info("aggregator"), msg).unwrap();
    assert!(res.messages.is_empty());
    assert_eq!(res.data, Some(true));
}

#[test]
fn validator_settings_are_the_owners() {
    let mut deps = instantiated(80000);
    let err = execute(
        &mut deps,
        mock_env(),
        mock_info("other"),
        ExecuteMsg::SetFlaggingThreshold { threshold: 1 },
    )
    .unwrap_err();
    assert_eq!(err, ContractError::Unauthorized);
    let err = execute(
        &mut deps,
        mock_env(),
        mock_info("other"),
        ExecuteMsg::SetFlagsAddress { flags: "x".to_string() },
    )
    .unwrap_err();
    assert_eq!(err, ContractError::Unauthorized);
    // an unchanged value tells nothing
    let res = execute(
        &mut deps,
        mock_env(),
        mock_info("creator"),
        ExecuteMsg::SetFlaggingThreshold { threshold: 80000 },
    )
    .unwrap();
    assert!(res.attributes.is_empty());
    let res = execute(
        &mut deps,
        mock_env(),
        mock_info("creator"),
        ExecuteMsg::SetFlaggingThreshold { threshold: 1000 },
    )
    .unwrap();
    assert_eq!(
        res.attributes,
        vec![
            attr("action", "flagging_threshold_updated".to_string()),
            attr("previous", "80000".to_string()),
            attr("current", "1000".to_string()),
        ]
    );
    let res = execute(
        &mut deps,
        mock_env(),
        mock_info("creator"),
        ExecuteMsg::SetFlagsAddress { flags: "flags2".to_string() },
    )
    .unwrap();
    assert_eq!(
        res.attributes,
        vec![
            attr("action", "flags_address_updated".to_string()),
            attr("previous", "flags".to_string()),
        ]
    );
}

#[test]
fn validator_queries() {
    let deps = instantiated(80000);
    assert_eq!(
        query(&deps, mock_env(), QueryMsg::IsValid { previous_answer: 100, answer: 5 }).unwrap(),
        QueryResponse::IsValid(false)
    );
    assert_eq!(
        query(&deps, mock_env(), QueryMsg::FlaggingThreshold).unwrap(),
        QueryResponse::FlaggingThreshold(FlaggingThresholdResponse { threshold: 80000 })
    );
    assert_eq!(
        query(&deps, mock_env(), QueryMsg::Owner).unwrap(),
        QueryResponse::Owner("creator".to_string())
    );
}
