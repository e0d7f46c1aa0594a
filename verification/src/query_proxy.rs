//! A proxy that hands every query on, as it is, to the contract of the phase
//! in office, and lets the owner put a new contract in its place in two steps.

use crate::host::{
    came_out, contract_version, ContractVersion, Env, MessageInfo, Response, ResponseView,
    StdError,
};
use crate::owned::{Auth, AuthView, Error, StateView};
use vstd::prelude::*;

verus! {

/// Why a message was refused.
#[derive(Clone, Copy, Debug, PartialEq, Eq, Structural)]
pub enum ContractError {
    Std(StdError),
    Owned(Error),
    Unauthorized,
    Invalid,
}

/// A phase: its number and the contract in office during it.
#[derive(Clone, Debug, PartialEq, Eq)]
pub struct Phase {
    pub id: u16,
    pub contract_address: String,
}

impl View for Phase {
    type V = (u16, Seq<char>);

    open spec fn view(&self) -> (u16, Seq<char>) {
        (self.id, self.contract_address@)
    }
}

/// What sets the contract up.
#[derive(Clone, Debug, PartialEq, Eq)]
pub struct InstantiateMsg {
    pub contract_address: String,
}

/// The messages that change the contract.
#[derive(Clone, Debug, PartialEq, Eq)]
pub enum ExecuteMsg {
    ProposeContract { address: String },
    ConfirmContract { address: String },
    /// Initiate contract ownership transfer to another address.
    /// Can be used only by owner
    TransferOwnership {
        /// Address to transfer ownership to
        to: String,
    },
    /// Finish contract ownership transfer. Can be used only by pending owner
    AcceptOwnership,
}

/// The name under which the contract records itself.
pub const CONTRACT_NAME: &'static str = "crates.io:query-proxy";

/// The version under which the contract records itself.
pub const CONTRACT_VERSION: &'static str = "1.0.0";

/// What the proxy keeps between calls.
#[derive(Clone, Debug, PartialEq, Eq)]
pub struct Storage {
    pub version: Option<ContractVersion>,
    pub owner: Auth,
    pub current_phase: Option<Phase>,
    pub proposed_contract: Option<String>,
    /// The contract of each phase, from phase 0 on.
    pub phases: Vec<Phase>,
}

/// `Storage` as contracts speak of it: each text as its characters, each byte string as
/// its bytes.
pub ghost struct StorageView {
    pub version: Option<(Seq<char>, Seq<char>)>,
    pub owner: AuthView,
    pub current_phase: Option<(u16, Seq<char>)>,
    pub proposed_contract: Option<Seq<char>>,
    pub phases: Seq<(u16, Seq<char>)>,
}

/// The views of a list of phases.
pub open spec fn phase_views(list: Seq<Phase>) -> Seq<(u16, Seq<char>)> {
    list.map_values(|p: Phase| p@)
}

impl View for Storage {
    type V = StorageView;

    open spec fn view(&self) -> StorageView {
        StorageView {
            version: match self.version {
                Some(v) => Some(v@),
                None => None,
            },
            owner: self.owner@,
            current_phase: match self.current_phase {
                Some(p) => Some(p@),
                None => None,
            },
            proposed_contract: match self.proposed_contract {
                Some(p) => Some(p@),
                None => None,
            },
            phases: phase_views(self.phases@),
        }
    }
}

impl StorageView {
    /// The storage after an instantiation by `sender` in front of `contract`.
    pub open spec fn instantiated(self, sender: Seq<char>, contract: Seq<char>) -> StorageView {
        StorageView {
            version: Some((CONTRACT_NAME@, CONTRACT_VERSION@)),
            owner: AuthView {
                state: Some(StateView { owner: sender, proposed_owner: None }),
                ..self.owner
            },
            current_phase: Some((0u16, contract)),
            proposed_contract: None,
            phases: seq![(0u16, contract)],
        }
    }

    /// Fails unless `sender` owns the contract.
    pub open spec fn validate_ownership(self, sender: Seq<char>) -> Result<(), ContractError> {
        match self.owner.is_owner(sender) {
            Err(e) => Err(ContractError::Std(e)),
            Ok(false) => Err(ContractError::Unauthorized),
            Ok(true) => Ok(()),
        }
    }

    /// What a message does to the storage, and the response to it.
    pub open spec fn executed(self, sender: Seq<char>, msg: ExecuteMsg) -> Result<
        (StorageView, ResponseView),
        ContractError,
    > {
        match msg {
            ExecuteMsg::ProposeContract { address } => match self.validate_ownership(sender) {
                Err(e) => Err(e),
                Ok(_) => Ok(
                    (StorageView { proposed_contract: Some(address@), ..self }, ResponseView::new()),
                ),
            },
            ExecuteMsg::ConfirmContract { address } => match self.validate_ownership(sender) {
                Err(e) => Err(e),
                Ok(_) => match self.proposed_contract {
                    None => Err(ContractError::Std(StdError::NotFound)),
                    // Validate the address was actually proposed previously
                    Some(proposed) => if proposed != address@ {
                        Err(ContractError::Invalid)
                    } else {
                        match self.current_phase {
                            None => Err(ContractError::Std(StdError::NotFound)),
                            Some(current) => if current.0 == u16::MAX {
                                Err(ContractError::Std(StdError::Overflow))
                            } else {
                                Ok(
                                    (
                                        StorageView {
                                            proposed_contract: None,
                                            current_phase: Some(
                                                ((current.0 + 1) as u16, address@),
                                            ),
                                            phases: self.phases.push(
                                                ((current.0 + 1) as u16, address@),
                                            ),
                                            ..self
                                        },
                                        ResponseView::new(),
                                    ),
                                )
                            },
                        }
                    },
                },
            },
            ExecuteMsg::TransferOwnership { to } => match self.owner.transfer_ownership(
                sender,
                to@,
            ) {
                Ok((owner, response)) => Ok((StorageView { owner, ..self }, response)),
                Err(e) => Err(ContractError::Owned(e)),
            },
            ExecuteMsg::AcceptOwnership => match self.owner.accept_ownership(sender) {
                Ok((owner, response)) => Ok((StorageView { owner, ..self }, response)),
                Err(e) => Err(ContractError::Owned(e)),
            },
        }
    }
}

impl Storage {
    /// The storage of a contract that has not been instantiated.
    pub fn new() -> (s: Storage)
        ensures
            s@ == (StorageView {
                version: None,
                owner: AuthView { namespace: "owner"@, state: None },
                current_phase: None,
                proposed_contract: None,
                phases: Seq::empty(),
            }),
    {
        let s = Storage {
            version: None,
            owner: Auth::new("owner"),
            current_phase: None,
            proposed_contract: None,
            phases: Vec::new(),
        };
        assert(s@.phases =~= Seq::empty());
        s
    }
}

/// Sets the proxy up in front of its first contract, owned by the sender.
pub fn instantiate(storage: &mut Storage, _env: Env, info: MessageInfo, msg: InstantiateMsg) -> (res:
    Result<Response, ContractError>)
    ensures
        res is Ok,
        res->Ok_0@ == ResponseView::new(),
        final(storage)@ == old(storage)@.instantiated(info.sender@, msg.contract_address@),
{
    storage.version = Some(contract_version(CONTRACT_NAME, CONTRACT_VERSION));
    let _ = storage.owner.initialize(info.sender);
    let mut phases: Vec<Phase> = Vec::new();
    phases.push(Phase { id: 0, contract_address: msg.contract_address.clone() });
    storage.phases = phases;
    storage.current_phase = Some(Phase { id: 0, contract_address: msg.contract_address });
    storage.proposed_contract = None;
    assert(storage@.phases =~= seq![(0u16, msg.contract_address@)]);
    Ok(Response::new())
}

/// Carries a message out.
pub fn execute(storage: &mut Storage, env: Env, info: MessageInfo, msg: ExecuteMsg) -> (res: Result<
    Response,
    ContractError,
>)
    ensures
        came_out(old(storage)@.executed(info.sender@, msg), res, old(storage)@, final(storage)@),
{
    match msg {
        ExecuteMsg::ProposeContract { address } => {
            validate_ownership(storage, &env, &info)?;
            storage.proposed_contract = Some(address);
            Ok(Response::new())
        },
        ExecuteMsg::ConfirmContract { address } => {
            validate_ownership(storage, &env, &info)?;
            // Validate the address was actually proposed previously
            let matches = match &storage.proposed_contract {
                Some(proposed) => *proposed == address,
                None => {
                    return Err(ContractError::Std(StdError::NotFound));
                },
            };
            if !matches {
                return Err(ContractError::Invalid);
            }
            let id = match &storage.current_phase {
                Some(current) => current.id,
                None => {
                    return Err(ContractError::Std(StdError::NotFound));
                },
            };
            if id == u16::MAX {
                return Err(ContractError::Std(StdError::Overflow));
            }
            // Update state
            let ghost before = storage@.phases;
            storage.proposed_contract = None;
            storage.phases.push(Phase { id: id + 1, contract_address: address.clone() });
            storage.current_phase = Some(Phase { id: id + 1, contract_address: address });
            assert(storage@.phases =~= before.push(((id + 1) as u16, address@)));
            Ok(Response::new())
        },
        ExecuteMsg::TransferOwnership { to } => {
            match storage.owner.execute_transfer_ownership(info, to) {
                Ok(response) => Ok(response),
                Err(e) => Err(ContractError::Owned(e)),
            }
        },
        ExecuteMsg::AcceptOwnership => {
            match storage.owner.execute_accept_ownership(info) {
                Ok(response) => Ok(response),
                Err(e) => Err(ContractError::Owned(e)),
            }
        },
    }
}

/// The contract to which a query is handed on: that of the phase in office.
pub fn query(storage: &Storage, _env: Env) -> (res: Result<String, ContractError>)
    ensures
        match storage@.current_phase {
            Some(current) => res is Ok && res->Ok_0@ == current.1,
            None => res == Err::<String, ContractError>(ContractError::Std(StdError::NotFound)),
        },
{
    match &storage.current_phase {
        Some(current) => Ok(current.contract_address.clone()),
        None => Err(ContractError::Std(StdError::NotFound)),
    }
}

fn validate_ownership(storage: &Storage, _env: &Env, info: &MessageInfo) -> (res: Result<
    (),
    ContractError,
>)
    ensures
        res == storage@.validate_ownership(info.sender@),
{
    match storage.owner.is_owner(&info.sender) {
        Err(e) => Err(ContractError::Std(e)),
        Ok(false) => Err(ContractError::Unauthorized),
        Ok(true) => Ok(()),
    }
}

} // verus!
