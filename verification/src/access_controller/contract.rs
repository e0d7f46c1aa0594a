use crate::access_controller::error::ContractError;
use crate::access_controller::msg::{ExecuteMsg, InstantiateMsg, QueryMsg};
use crate::access_controller::state::{Storage, StorageView};
use crate::host::{
    came_out, contract_version, Env, MessageInfo, Response, ResponseView, StdError,
};
use crate::owned::{AuthView, StateView};
use crate::table::{del, has_key, put, str_eq, Table};
use vstd::prelude::*;

verus! {

/// The name under which the contract records itself.
pub const CONTRACT_NAME: &'static str = "crates.io:access-controller";

/// The version under which the contract records itself.
pub const CONTRACT_VERSION: &'static str = "1.0.0";

/// The answer to a query.
#[derive(Clone, Debug, PartialEq, Eq)]
pub enum QueryResponse {
    HasAccess(bool),
    Owner(String),
}

impl StorageView {
    /// Fails unless `sender` owns the contract.
    pub open spec fn owner_only(self, sender: Seq<char>) -> Result<(), ContractError> {
        match self.owner.is_owner(sender) {
            Err(e) => Err(ContractError::Std(e)),
            Ok(false) => Err(ContractError::Unauthorized),
            Ok(true) => Ok(()),
        }
    }

    /// The owner gives `address` access.
    pub open spec fn add_access(self, sender: Seq<char>, address: Seq<char>) -> Result<
        (StorageView, ResponseView),
        ContractError,
    > {
        match self.owner_only(sender) {
            Err(e) => Err(e),
            Ok(_) => Ok(
                (StorageView { access: put(self.access, address, ()), ..self }, ResponseView::new()),
            ),
        }
    }

    /// The owner takes the access of `address` away.
    pub open spec fn remove_access(self, sender: Seq<char>, address: Seq<char>) -> Result<
        (StorageView, ResponseView),
        ContractError,
    > {
        match self.owner_only(sender) {
            Err(e) => Err(e),
            Ok(_) => Ok(
                (StorageView { access: del(self.access, address), ..self }, ResponseView::new()),
            ),
        }
    }

    /// What a message does to the storage, and the response to it.
    pub open spec fn executed(self, sender: Seq<char>, msg: ExecuteMsg) -> Result<
        (StorageView, ResponseView),
        ContractError,
    > {
        match msg {
            ExecuteMsg::AddAccess { address } => self.add_access(sender, address@),
            ExecuteMsg::RemoveAccess { address } => self.remove_access(sender, address@),
            ExecuteMsg::TransferOwnership { to } => match self.owner.transfer_ownership(
                sender,
                to@,
            ) {
                Ok((owner, response)) => Ok((StorageView { owner, ..self }, response)),
                Err(e) => Err(ContractError::Owned(e)),
            },
            ExecuteMsg::AcceptOwnership => match self.owner.accept_ownership(sender) {
                Ok((owner, response)) => Ok((StorageView { owner, ..self }, response)),
                Err(e) => Err(ContractError::Owned(e)),
            },
        }
    }
}

/// Sets the controller up, owned by the sender, with no address on its list.
pub fn instantiate(storage: &mut Storage, _env: Env, info: MessageInfo, _msg: InstantiateMsg) -> (res:
    Result<Response, ContractError>)
    ensures
        res is Ok,
        res->Ok_0@ == ResponseView::new(),
        final(storage)@ == (StorageView {
            version: Some((CONTRACT_NAME@, CONTRACT_VERSION@)),
            owner: AuthView {
                state: Some(StateView { owner: info.sender@, proposed_owner: None }),
                ..old(storage)@.owner
            },
            access: Seq::empty(),
        }),
        final(storage)@.wf(),
{
    storage.version = Some(contract_version(CONTRACT_NAME, CONTRACT_VERSION));
    let _ = storage.owner.initialize(info.sender);
    storage.access = Table::new();
    Ok(Response::new())
}

/// Carries a message out.
pub fn execute(storage: &mut Storage, env: Env, info: MessageInfo, msg: ExecuteMsg) -> (res: Result<
    Response,
    ContractError,
>)
    ensures
        came_out(old(storage)@.executed(info.sender@, msg), res, old(storage)@, final(storage)@),
        final(storage)@.wf(),
{
    match msg {
        ExecuteMsg::AddAccess { address } => execute_add_access(storage, env, info, address),
        ExecuteMsg::RemoveAccess { address } => execute_remove_access(storage, env, info, address),
        ExecuteMsg::TransferOwnership { to } => {
            storage.access.recall_order();
            match storage.owner.execute_transfer_ownership(info, to) {
                Ok(response) => Ok(response),
                Err(e) => Err(ContractError::Owned(e)),
            }
        },
        ExecuteMsg::AcceptOwnership => {
            storage.access.recall_order();
            match storage.owner.execute_accept_ownership(info) {
                Ok(response) => Ok(response),
                Err(e) => Err(ContractError::Owned(e)),
            }
        },
    }
}

/// Answers a query.
pub fn query(storage: &Storage, _env: Env, msg: QueryMsg) -> (res: Result<QueryResponse, StdError>)
    ensures
        match msg {
            QueryMsg::HasAccess { address } => res == Ok::<QueryResponse, StdError>(
                QueryResponse::HasAccess(has_key(storage@.access, address@)),
            ),
            QueryMsg::Owner {  } => match storage@.owner.state {
                Some(s) => res matches Ok(QueryResponse::Owner(owner)) && owner@ == s.owner,
                None => res == Err::<QueryResponse, StdError>(StdError::NotFound),
            },
        },
{
    match msg {
        QueryMsg::HasAccess { address } => Ok(
            QueryResponse::HasAccess(query_has_access(storage, address)?),
        ),
        QueryMsg::Owner {  } => Ok(QueryResponse::Owner(storage.owner.query_owner()?)),
    }
}

/// Records the contract's version anew, where the storage was written by a
/// contract of this kind.
pub fn migrate(storage: &mut Storage, _env: Env) -> (res: Result<Response, ContractError>)
    ensures
        match old(storage)@.version {
            None => res == Err::<Response, ContractError>(ContractError::Std(StdError::NotFound))
                && final(storage)@ == old(storage)@,
            Some(v) => if v.0 == CONTRACT_NAME@ {
                res is Ok && res->Ok_0@ == ResponseView::new() && final(storage)@ == (StorageView {
                    version: Some((CONTRACT_NAME@, CONTRACT_VERSION@)),
                    ..old(storage)@
                })
            } else {
                res matches Err(ContractError::CannotMigrate { previous_contract })
                    && previous_contract@ == v.0 && final(storage)@ == old(storage)@
            },
        },
{
    let previous = match &storage.version {
        Some(stored) => stored.contract.clone(),
        None => {
            return Err(ContractError::Std(StdError::NotFound));
        },
    };
    // ensure we are migrating from an allowed contract
    if !str_eq(previous.as_str(), CONTRACT_NAME) {
        return Err(ContractError::CannotMigrate { previous_contract: previous });
    }
    // Update the contract version
    storage.version = Some(contract_version(CONTRACT_NAME, CONTRACT_VERSION));
    Ok(Response::new())
}

/// The owner gives `address` access.
pub fn execute_add_access(storage: &mut Storage, _env: Env, info: MessageInfo, address: String) -> (res:
    Result<Response, ContractError>)
    ensures
        came_out(
            old(storage)@.add_access(info.sender@, address@),
            res,
            old(storage)@,
            final(storage)@,
        ),
        final(storage)@.wf(),
{
    storage.access.recall_order();
    match storage.owner.is_owner(&info.sender) {
        Err(e) => {
            return Err(ContractError::Std(e));
        },
        Ok(false) => {
            return Err(ContractError::Unauthorized);
        },
        Ok(true) => {},
    }
    storage.access.insert(address, ());
    storage.access.recall_order();
    Ok(Response::new())
}

/// The owner takes the access of `address` away.
pub fn execute_remove_access(
    storage: &mut Storage,
    _env: Env,
    info: MessageInfo,
    address: String,
) -> (res: Result<Response, ContractError>)
    ensures
        came_out(
            old(storage)@.remove_access(info.sender@, address@),
            res,
            old(storage)@,
            final(storage)@,
        ),
        final(storage)@.wf(),
{
    storage.access.recall_order();
    match storage.owner.is_owner(&info.sender) {
        Err(e) => {
            return Err(ContractError::Std(e));
        },
        Ok(false) => {
            return Err(ContractError::Unauthorized);
        },
        Ok(true) => {},
    }
    storage.access.remove(address.as_str());
    storage.access.recall_order();
    Ok(Response::new())
}

/// Whether `address` has access.
pub fn query_has_access(storage: &Storage, address: String) -> (res: Result<bool, StdError>)
    ensures
        res == Ok::<bool, StdError>(has_key(storage@.access, address@)),
{
    Ok(storage.access.contains(address.as_str()))
}

} // verus!
