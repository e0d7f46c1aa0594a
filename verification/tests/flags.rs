use oracle_contracts::access_controller::contract as access_controller;
use oracle_contracts::access_controller::msg::ExecuteMsg as AccessControllerMsg;
use oracle_contracts::access_controller::msg::InstantiateMsg as AccessControllerInstantiateMsg;
use oracle_contracts::access_controller::state::Storage as AccessControllerStorage;
use oracle_contracts::flags::contract::{asked_controller, execute, instantiate, query};
use oracle_contracts::flags::error::ContractError;
use oracle_contracts::flags::msg::{ExecuteMsg, InstantiateMsg, QueryMsg, QueryResponse};
use oracle_contracts::flags::state::Storage;
use oracle_contracts::host::{Attribute, Env, MessageInfo, Querier, Response, StdError};

fn attr(key: &str, value: &str) -> Attribute {
    Attribute { key: key.to_string(), value: value.to_string() }
}

fn mock_env() -> Env {
    Env {
        block_height: 12345,
        block_time: 1571797419,
        chain_id: "cosmos-testnet-14002".to_string(),
        contract_address: "contract2".to_string(),
    }
}

fn info(sender: &str) -> MessageInfo {
    MessageInfo { sender: sender.to_string() }
}

/// The three contracts of a registry with its two access controllers.
struct TestEnv {
    owner: String,
    raising_access_controller: AccessControllerStorage,
    lowering_access_controller: AccessControllerStorage,
    flags: Storage,
}

impl TestEnv {
    /// Sends `msg` to the registry, after asking the controller that gates it.
    fn execute_flags(&mut self, sender: &str, msg: ExecuteMsg) -> Result<Response, ContractError> {
        let controller = match &msg {
            ExecuteMsg::LowerFlags { .. } => &self.lowering_access_controller,
            _ => &self.raising_access_controller,
        };
        let has_access = access_controller::query_has_access(controller, sender.to_string()).ok();
        let querier = Querier { has_access, balance: None, new_token_balance: None };
        execute(&mut self.flags, mock_env(), info(sender), msg, &querier)
    }
}

fn setup() -> TestEnv {
    let owner = "owner".to_string();

    let mut raising_access_controller = AccessControllerStorage::new();
    access_controller::instantiate(
        &mut raising_access_controller,
        mock_env(),
        info(&owner),
        AccessControllerInstantiateMsg {},
    )
    .unwrap();

    let mut lowering_access_controller = AccessControllerStorage::new();
    access_controller::instantiate(
        &mut lowering_access_controller,
        mock_env(),
        info(&owner),
        AccessControllerInstantiateMsg {},
    )
    .unwrap();

    let mut flags = Storage::new();
    instantiate(
        &mut flags,
        mock_env(),
        info(&owner),
        InstantiateMsg {
            raising_access_controller: "contract0".to_string(),
            lowering_access_controller: "contract1".to_string(),
        },
    )
    .unwrap();

    TestEnv { owner, raising_access_controller, lowering_access_controller, flags }
}

#[test]
fn integration_tests_proper_initialization() {
    setup();
}

#[test]
fn raise_flag() {
    let mut env = setup();

    let sender = "human".to_string();

    // give access to sender
    access_controller::execute(
        &mut env.raising_access_controller,
        mock_env(),
        info(&env.owner),
        AccessControllerMsg::AddAccess { address: sender.to_string() },
    )
    .unwrap();

    let msg = ExecuteMsg::RaiseFlag { subject: sender.to_string() };

    env.execute_flags(&sender, msg).unwrap();

    let flag = query(&env.flags, mock_env(), QueryMsg::Flag { subject: sender.to_string() }).unwrap();
    assert_eq!(QueryResponse::Flag(true), flag);

    // trying to raise the flag when it's already raised
    let msg = ExecuteMsg::RaiseFlag { subject: sender.to_string() };

    let res = env.execute_flags(&sender, msg).unwrap();
    assert_eq!(
        vec![attr("action", "already raised flag"), attr("subject", &sender)],
        res.attributes
    );
}

#[test]
fn raise_flags() {
    let mut env = setup();

    let sender = "human".to_string();

    // give access to sender
    access_controller::execute(
        &mut env.raising_access_controller,
        mock_env(),
        info(&env.owner),
        AccessControllerMsg::AddAccess { address: sender.to_string() },
    )
    .unwrap();

    let msg = ExecuteMsg::RaiseFlags { subjects: vec![sender.to_string()] };
    env.execute_flags(&sender, msg).unwrap();

    let flags = query(
        &env.flags,
        mock_env(),
        QueryMsg::Flags { subjects: vec![sender.to_string()] },
    )
    .unwrap();

    assert_eq!(QueryResponse::Flags(vec![true]), flags);

    let msg = ExecuteMsg::RaiseFlags { subjects: vec![sender.to_string()] };
    let res = env.execute_flags(&sender, msg).unwrap();

    assert_eq!(
        vec![attr("action", "already raised flag"), attr("subject", &sender)],
        res.attributes
    );
}

#[test]
fn lower_flags() {
    let mut env = setup();

    let sender = "human".to_string();

    // give access to sender
    access_controller::execute(
        &mut env.raising_access_controller,
        mock_env(),
        info(&env.owner),
        AccessControllerMsg::AddAccess { address: sender.to_string() },
    )
    .unwrap();

    let msg = ExecuteMsg::RaiseFlags { subjects: vec![sender.to_string()] };
    env.execute_flags(&sender, msg).unwrap();

    // sender can't lower flags
    let msg = ExecuteMsg::LowerFlags { subjects: vec![sender.to_string()] };
    let res = env.execute_flags(&sender, msg);
    assert!(res.is_err());

    // owner can
    let msg = ExecuteMsg::LowerFlags { subjects: vec![sender.to_string()] };
    let owner = env.owner.clone();
    env.execute_flags(&owner, msg).unwrap();

    // flag is lowered
    let flag = query(&env.flags, mock_env(), QueryMsg::Flag { subject: sender.to_string() }).unwrap();
    assert_eq!(QueryResponse::Flag(false), flag);
}

#[test]
fn raising_twice_changes_nothing() {
    let mut env = setup();
    let owner = env.owner.clone();
    let res = env
        .execute_flags(&owner, ExecuteMsg::RaiseFlag { subject: "feed".to_string() })
        .unwrap();
    assert_eq!(res.attributes, vec![attr("action", "raised flag"), attr("subject", "feed")]);
    let raised = env.flags.clone();
    let res = env
        .execute_flags(&owner, ExecuteMsg::RaiseFlag { subject: "feed".to_string() })
        .unwrap();
    assert_eq!(
        res.attributes,
        vec![attr("action", "already raised flag"), attr("subject", "feed")]
    );
    assert_eq!(env.flags, raised);
}

#[test]
fn lowering_an_unraised_flag_changes_nothing() {
    let mut env = setup();
    let owner = env.owner.clone();
    env.execute_flags(&owner, ExecuteMsg::RaiseFlag { subject: "feed".to_string() }).unwrap();
    let before = env.flags.clone();
    let res = env
        .execute_flags(&owner, ExecuteMsg::LowerFlags { subjects: vec!["other".to_string()] })
        .unwrap();
    assert!(res.attributes.is_empty());
    assert_eq!(env.flags, before);
    let res = env
        .execute_flags(
            &owner,
            ExecuteMsg::LowerFlags { subjects: vec!["other".to_string(), "feed".to_string()] },
        )
        .unwrap();
    assert_eq!(res.attributes, vec![attr("action", "flag lowered"), attr("address", "feed")]);
    assert_eq!(
        query(&env.flags, mock_env(), QueryMsg::Flag { subject: "feed".to_string() }).unwrap(),
        QueryResponse::Flag(false)
    );
}

#[test]
fn raise_flags_tells_of_each_subject() {
    let mut env = setup();
    let owner = env.owner.clone();
    let res = env
        .execute_flags(
            &owner,
            ExecuteMsg::RaiseFlags {
                subjects: vec!["b".to_string(), "a".to_string(), "b".to_string()],
            },
        )
        .unwrap();
    assert_eq!(
        res.attributes,
        vec![
            attr("action", "flag raised"),
            attr("subject", "b"),
            attr("action", "flag raised"),
            attr("subject", "a"),
            attr("action", "already raised flag"),
            attr("subject", "b"),
        ]
    );
    assert_eq!(
        query(
            &env.flags,
            mock_env(),
            QueryMsg::Flags { subjects: vec!["a".to_string(), "c".to_string(), "b".to_string()] }
        )
        .unwrap(),
        QueryResponse::Flags(vec![true, false, true])
    );
}

#[test]
fn flags_access_is_checked() {
    let mut env = setup();
    // one without access
    let err = env
        .execute_flags("stranger", ExecuteMsg::RaiseFlag { subject: "feed".to_string() })
        .unwrap_err();
    assert_eq!(err, ContractError::Unauthorized);
    let err = env
        .execute_flags("stranger", ExecuteMsg::RaiseFlags { subjects: vec!["feed".to_string()] })
        .unwrap_err();
    assert_eq!(err, ContractError::Unauthorized);
    // a controller that does not answer
    let querier = Querier { has_access: None, balance: None, new_token_balance: None };
    let err = execute(
        &mut env.flags,
        mock_env(),
        info("stranger"),
        ExecuteMsg::RaiseFlag { subject: "feed".to_string() },
        &querier,
    )
    .unwrap_err();
    assert_eq!(err, ContractError::Std(StdError::QueryFailed));
    // the owner is not asked about
    let res = execute(
        &mut env.flags,
        mock_env(),
        info("owner"),
        ExecuteMsg::RaiseFlag { subject: "feed".to_string() },
        &querier,
    );
    assert!(res.is_ok());
}

#[test]
fn set_raising_access_controller_tells_the_previous() {
    let mut env = setup();
    let owner = env.owner.clone();
    let err = env
        .execute_flags(
            "stranger",
            ExecuteMsg::SetRaisingAccessController { rac_address: "contract9".to_string() },
        )
        .unwrap_err();
    assert_eq!(err, ContractError::Unauthorized);
    let res = env
        .execute_flags(
            &owner,
            ExecuteMsg::SetRaisingAccessController { rac_address: "contract9".to_string() },
        )
        .unwrap();
    assert_eq!(
        res.attributes,
        vec![
            attr("action", "raising access controller updated"),
            attr("address", "contract9"),
            attr("previous", "contract0"),
        ]
    );
    assert_eq!(
        query(&env.flags, mock_env(), QueryMsg::RaisingAccessController {}).unwrap(),
        QueryResponse::RaisingAccessController("contract9".to_string())
    );
    assert_eq!(
        query(&env.flags, mock_env(), QueryMsg::Owner {}).unwrap(),
        QueryResponse::Owner("owner".to_string())
    );
}

#[test]
fn controller_that_a_message_depends_on() {
    let env = setup();
    let raise = ExecuteMsg::RaiseFlag { subject: "feed".to_string() };
    let raise_many = ExecuteMsg::RaiseFlags { subjects: vec!["feed".to_string()] };
    let lower = ExecuteMsg::LowerFlags { subjects: vec!["feed".to_string()] };
    assert_eq!(asked_controller(&env.flags, &info("human"), &raise), Some("contract0".to_string()));
    assert_eq!(
        asked_controller(&env.flags, &info("human"), &raise_many),
        Some("contract0".to_string())
    );
    assert_eq!(asked_controller(&env.flags, &info("human"), &lower), Some("contract1".to_string()));
    assert_eq!(asked_controller(&env.flags, &info("owner"), &raise), None);
    assert_eq!(asked_controller(&env.flags, &info("human"), &ExecuteMsg::AcceptOwnership), None);
    assert_eq!(asked_controller(&Storage::new(), &info("human"), &raise), None);
}
