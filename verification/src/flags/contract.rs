use crate::access_controller::AccessControllerContract;
use crate::flags::error::ContractError;
use crate::flags::msg::{ExecuteMsg, InstantiateMsg, QueryMsg, QueryResponse};
use crate::flags::state::{Config, Storage, StorageView};
use crate::host::{
    attribute_views, came_out, contract_version, push_attr, Attribute, AttributeView, Env,
    MessageInfo, Querier, Response, ResponseView, StdError,
};
use crate::owned::{AuthView, StateView};
use crate::table::{del, has_key, lemma_put, put, Table};
use crate::text::text_views;
use vstd::prelude::*;

verus! {

/// The name under which the contract records itself.
pub const CONTRACT_NAME: &'static str = "crates.io:flags";

/// The version under which the contract records itself.
pub const CONTRACT_VERSION: &'static str = "1.0.0";

/// The two attributes that tell of one subject.
pub open spec fn told(action: Seq<char>, key: Seq<char>, subject: Seq<char>) -> Seq<AttributeView> {
    seq![
        AttributeView { key: "action"@, value: action },
        AttributeView { key: key, value: subject },
    ]
}

/// The flags after each of `subjects` in turn has been raised, and what the
/// response tells of each: that its flag was raised, or that it was raised
/// already.
pub open spec fn raised(flags: Seq<(Seq<char>, ())>, subjects: Seq<Seq<char>>) -> (
    Seq<(Seq<char>, ())>,
    Seq<AttributeView>,
)
    decreases subjects.len(),
{
    if subjects.len() == 0 {
        (flags, Seq::empty())
    } else {
        let before = raised(flags, subjects.drop_last());
        if has_key(before.0, subjects.last()) {
            (before.0, before.1 + told("already raised flag"@, "subject"@, subjects.last()))
        } else {
            (
                put(before.0, subjects.last(), ()),
                before.1 + told("flag raised"@, "subject"@, subjects.last()),
            )
        }
    }
}

/// The flags after each of `subjects` in turn has been lowered, and what the
/// response tells of each whose flag was raised.
pub open spec fn lowered(flags: Seq<(Seq<char>, ())>, subjects: Seq<Seq<char>>) -> (
    Seq<(Seq<char>, ())>,
    Seq<AttributeView>,
)
    decreases subjects.len(),
{
    if subjects.len() == 0 {
        (flags, Seq::empty())
    } else {
        let before = lowered(flags, subjects.drop_last());
        if has_key(before.0, subjects.last()) {
            (
                del(before.0, subjects.last()),
                before.1 + told("flag lowered"@, "address"@, subjects.last()),
            )
        } else {
            before
        }
    }
}

impl StorageView {
    /// Fails unless `sender` owns the contract.
    pub open spec fn validate_ownership(self, sender: Seq<char>) -> Result<(), ContractError> {
        match self.owner.is_owner(sender) {
            Err(e) => Err(ContractError::Std(e)),
            Ok(false) => Err(ContractError::Unauthorized),
            Ok(true) => Ok(()),
        }
    }

    /// Fails unless `sender` owns the contract or the access controller that
    /// was asked grants it.
    pub open spec fn check_access(self, sender: Seq<char>, querier: Querier) -> Result<
        (),
        ContractError,
    > {
        match self.owner.is_owner(sender) {
            Err(e) => Err(ContractError::Std(e)),
            Ok(true) => Ok(()),
            Ok(false) => match querier.has_access {
                None => Err(ContractError::Std(StdError::QueryFailed)),
                Some(false) => Err(ContractError::Unauthorized),
                Some(true) => Ok(()),
            },
        }
    }

    /// The access controller that a message from `sender` depends on.
    pub open spec fn asked_controller(self, sender: Seq<char>, msg: ExecuteMsg) -> Option<
        Seq<char>,
    > {
        match self.config {
            None => None,
            Some(c) => if self.owner.is_owner(sender) != Ok::<bool, StdError>(false) {
                None
            } else if msg is RaiseFlag || msg is RaiseFlags {
                Some(c.0)
            } else if msg is LowerFlags {
                Some(c.1)
            } else {
                None
            },
        }
    }

    /// One who may raises the flag of `subject`.
    pub open spec fn raise_flag(self, sender: Seq<char>, subject: Seq<char>, querier: Querier)
        -> Result<(StorageView, ResponseView), ContractError> {
        if self.config is None {
            Err(ContractError::Std(StdError::NotFound))
        } else {
            match self.check_access(sender, querier) {
                Err(e) => Err(e),
                Ok(_) => if has_key(self.flags, subject) {
                    Ok(
                        (
                            self,
                            ResponseView::new().attrs(
                                told("already raised flag"@, "subject"@, subject),
                            ),
                        ),
                    )
                } else {
                    Ok(
                        (
                            StorageView { flags: put(self.flags, subject, ()), ..self },
                            ResponseView::new().attrs(told("raised flag"@, "subject"@, subject)),
                        ),
                    )
                },
            }
        }
    }

    /// One who may raises the flags of `subjects`.
    pub open spec fn raise_flags(self, sender: Seq<char>, subjects: Seq<Seq<char>>, querier: Querier)
        -> Result<(StorageView, ResponseView), ContractError> {
        if self.config is None {
            Err(ContractError::Std(StdError::NotFound))
        } else {
            match self.check_access(sender, querier) {
                Err(e) => Err(e),
                Ok(_) => Ok(
                    (
                        StorageView { flags: raised(self.flags, subjects).0, ..self },
                        ResponseView::new().attrs(raised(self.flags, subjects).1),
                    ),
                ),
            }
        }
    }

    /// One who may lowers the flags of `subjects`.
    pub open spec fn lower_flags(self, sender: Seq<char>, subjects: Seq<Seq<char>>, querier: Querier)
        -> Result<(StorageView, ResponseView), ContractError> {
        if self.config is None {
            Err(ContractError::Std(StdError::NotFound))
        } else {
            match self.check_access(sender, querier) {
                Err(e) => Err(e),
                Ok(_) => Ok(
                    (
                        StorageView { flags: lowered(self.flags, subjects).0, ..self },
                        ResponseView::new().attrs(lowered(self.flags, subjects).1),
                    ),
                ),
            }
        }
    }

    /// The owner names the access controller for raising.
    pub open spec fn set_raising_access_controller(self, sender: Seq<char>, rac_address: Seq<char>)
        -> Result<(StorageView, ResponseView), ContractError> {
        match self.validate_ownership(sender) {
            Err(e) => Err(e),
            Ok(_) => match self.config {
                None => Err(ContractError::Std(StdError::NotFound)),
                Some(c) => Ok(
                    (
                        StorageView { config: Some((rac_address, c.1)), ..self },
                        ResponseView::new().attr(
                            "action"@,
                            "raising access controller updated"@,
                        ).attr("address"@, rac_address).attr("previous"@, c.0),
                    ),
                ),
            },
        }
    }

    /// What a message does to the storage, and the response to it. The
    /// access controller asked is the one that gates the message.
    pub open spec fn executed(self, sender: Seq<char>, msg: ExecuteMsg, querier: Querier) -> Result<
        (StorageView, ResponseView),
        ContractError,
    > {
        match msg {
            ExecuteMsg::RaiseFlag { subject } => self.raise_flag(sender, subject@, querier),
            ExecuteMsg::RaiseFlags { subjects } => self.raise_flags(
                sender,
                text_views(subjects@),
                querier,
            ),
            ExecuteMsg::LowerFlags { subjects } => self.lower_flags(
                sender,
                text_views(subjects@),
                querier,
            ),
            ExecuteMsg::SetRaisingAccessController {
                rac_address,
            } => self.set_raising_access_controller(sender, rac_address@),
            ExecuteMsg::TransferOwnership { to } => match self.owner.transfer_ownership(
                sender,
                to@,
            ) {
                Ok((owner, response)) => Ok((StorageView { owner, ..self }, response)),
                Err(e) => Err(ContractError::Owned(e)),
            },
            ExecuteMsg::AcceptOwnership => match self.owner.accept_ownership(sender) {
                Ok((owner, response)) => Ok((StorageView { owner, ..self }, response)),
                Err(e) => Err(ContractError::Owned(e)),
            },
        }
    }
}

/// Raising a flag that is raised changes nothing, succeeds, and tells that the
/// flag was raised already. Lowering a flag that is not raised changes nothing
/// and tells nothing.
pub proof fn lemma_flags_idempotent(
    s: StorageView,
    sender: Seq<char>,
    subject: Seq<char>,
    querier: Querier,
)
    requires
        s.wf(),
        s.config is Some,
        s.check_access(sender, querier) is Ok,
    ensures
        has_key(s.flags, subject) ==> s.raise_flag(sender, subject, querier) == Ok::<
            (StorageView, ResponseView),
            ContractError,
        >((s, ResponseView::new().attrs(told("already raised flag"@, "subject"@, subject)))),
        has_key(s.flags, subject) ==> s.raise_flags(sender, seq![subject], querier) == Ok::<
            (StorageView, ResponseView),
            ContractError,
        >((s, ResponseView::new().attrs(told("already raised flag"@, "subject"@, subject)))),
        s.raise_flag(sender, subject, querier) is Ok,
        has_key(s.raise_flag(sender, subject, querier)->Ok_0.0.flags, subject),
        s.raise_flag(sender, subject, querier)->Ok_0.0.raise_flag(sender, subject, querier)->Ok_0.0
            == s.raise_flag(sender, subject, querier)->Ok_0.0,
        !has_key(s.flags, subject) ==> s.lower_flags(sender, seq![subject], querier) == Ok::<
            (StorageView, ResponseView),
            ContractError,
        >((s, ResponseView::new().attrs(Seq::empty()))),
{
    let one = seq![subject];
    assert(one.drop_last() =~= Seq::<Seq<char>>::empty());
    assert(one.last() == subject);
    assert(raised(s.flags, one.drop_last()) == (s.flags, Seq::<AttributeView>::empty()));
    assert(lowered(s.flags, one.drop_last()) == (s.flags, Seq::<AttributeView>::empty()));
    if has_key(s.flags, subject) {
        assert(raised(s.flags, one).1 =~= told("already raised flag"@, "subject"@, subject));
    }
    lemma_put(s.flags, subject, ());
}

/// The access controller that a message from the sender depends on, if any:
/// the one for lowering or the one for raising, and none for the owner.
pub fn asked_controller(storage: &Storage, info: &MessageInfo, msg: &ExecuteMsg) -> (res: Option<
    String,
>)
    ensures
        match storage@.asked_controller(info.sender@, *msg) {
            Some(a) => res is Some && res->Some_0@ == a,
            None => res is None,
        },
{
    let config = match &storage.config {
        Some(config) => config,
        None => {
            return None;
        },
    };
    match storage.owner.is_owner(&info.sender) {
        Ok(false) => {},
        _ => {
            return None;
        },
    }
    match msg {
        ExecuteMsg::RaiseFlag { .. } => Some(config.raising_access_controller.addr()),
        ExecuteMsg::RaiseFlags { .. } => Some(config.raising_access_controller.addr()),
        ExecuteMsg::LowerFlags { .. } => Some(config.lowering_access_controller.addr()),
        _ => None,
    }
}

/// A message comes out the same whatever an access controller says that was
/// not asked.
pub proof fn lemma_unasked_controller_does_not_matter(
    s: StorageView,
    sender: Seq<char>,
    msg: ExecuteMsg,
    a: Querier,
    b: Querier,
)
    requires
        s.asked_controller(sender, msg) is Some ==> a.has_access == b.has_access,
    ensures
        s.executed(sender, msg, a) == s.executed(sender, msg, b),
{
}

/// Sets the registry up, owned by the sender, with no flag raised.
pub fn instantiate(storage: &mut Storage, _env: Env, info: MessageInfo, msg: InstantiateMsg) -> (res:
    Result<Response, ContractError>)
    ensures
        res is Ok,
        res->Ok_0@ == ResponseView::new(),
        final(storage)@ == (StorageView {
            version: Some((CONTRACT_NAME@, CONTRACT_VERSION@)),
            owner: AuthView {
                state: Some(StateView { owner: info.sender@, proposed_owner: None }),
                ..old(storage)@.owner
            },
            config: Some((msg.raising_access_controller@, msg.lowering_access_controller@)),
            flags: Seq::empty(),
        }),
        final(storage)@.wf(),
{
    storage.flags.recall_order();
    storage.version = Some(contract_version(CONTRACT_NAME, CONTRACT_VERSION));
    storage.config = Some(
        Config {
            raising_access_controller: AccessControllerContract(msg.raising_access_controller),
            lowering_access_controller: AccessControllerContract(msg.lowering_access_controller),
        },
    );
    let _ = storage.owner.initialize(info.sender);
    storage.flags = Table::new();
    Ok(Response::new())
}

/// Carries a message out. `querier` holds the answer of the access controller
/// that gates the message.
pub fn execute(
    storage: &mut Storage,
    env: Env,
    info: MessageInfo,
    msg: ExecuteMsg,
    querier: &Querier,
) -> (res: Result<Response, ContractError>)
    ensures
        came_out(
            old(storage)@.executed(info.sender@, msg, *querier),
            res,
            old(storage)@,
            final(storage)@,
        ),
        final(storage)@.wf(),
{
    storage.flags.recall_order();
    match msg {
        ExecuteMsg::RaiseFlag { subject } => execute_raise_flag(storage, env, info, subject, querier),
        ExecuteMsg::RaiseFlags { subjects } => execute_raise_flags(
            storage,
            env,
            info,
            subjects,
            querier,
        ),
        ExecuteMsg::LowerFlags { subjects } => execute_lower_flags(
            storage,
            env,
            info,
            subjects,
            querier,
        ),
        ExecuteMsg::SetRaisingAccessController {
            rac_address,
        } => execute_set_raising_access_controller(storage, env, info, rac_address),
        ExecuteMsg::TransferOwnership { to } => {
            match storage.owner.execute_transfer_ownership(info, to) {
                Ok(response) => Ok(response),
                Err(e) => Err(ContractError::Owned(e)),
            }
        },
        ExecuteMsg::AcceptOwnership => {
            match storage.owner.execute_accept_ownership(info) {
                Ok(response) => Ok(response),
                Err(e) => Err(ContractError::Owned(e)),
            }
        },
    }
}

/// Answers a query.
pub fn query(storage: &Storage, _env: Env, msg: QueryMsg) -> (res: Result<QueryResponse, ContractError>)
    ensures
        match msg {
            QueryMsg::Flag { subject } => res == Ok::<QueryResponse, ContractError>(
                QueryResponse::Flag(has_key(storage@.flags, subject@)),
            ),
            QueryMsg::Flags { subjects } => res matches Ok(QueryResponse::Flags(flags))
                && flags@.len() == subjects@.len() && forall|i: int|
                0 <= i < subjects@.len() ==> flags@[i] == has_key(
                    storage@.flags,
                    (#[trigger] subjects@[i])@,
                ),
            QueryMsg::RaisingAccessController {  } => match storage@.config {
                Some(c) => res matches Ok(QueryResponse::RaisingAccessController(a)) && a@ == c.0,
                None => res == Err::<QueryResponse, ContractError>(
                    ContractError::Std(StdError::NotFound),
                ),
            },
            QueryMsg::Owner {  } => match storage@.owner.state {
                Some(s) => res matches Ok(QueryResponse::Owner(owner)) && owner@ == s.owner,
                None => res == Err::<QueryResponse, ContractError>(
                    ContractError::Std(StdError::NotFound),
                ),
            },
        },
{
    match msg {
        QueryMsg::Flag { subject } => Ok(QueryResponse::Flag(query_flag(storage, subject)?)),
        QueryMsg::Flags { subjects } => Ok(QueryResponse::Flags(query_flags(storage, subjects)?)),
        QueryMsg::RaisingAccessController {  } => Ok(
            QueryResponse::RaisingAccessController(query_raising_access_controller(storage)?),
        ),
        QueryMsg::Owner {  } => match storage.owner.query_owner() {
            Ok(owner) => Ok(QueryResponse::Owner(owner)),
            Err(e) => Err(ContractError::Std(e)),
        },
    }
}

/// One who may raises the flag of `subject`.
pub fn execute_raise_flag(
    storage: &mut Storage,
    _env: Env,
    info: MessageInfo,
    subject: String,
    querier: &Querier,
) -> (res: Result<Response, ContractError>)
    ensures
        came_out(
            old(storage)@.raise_flag(info.sender@, subject@, *querier),
            res,
            old(storage)@,
            final(storage)@,
        ),
        final(storage)@.wf(),
{
    storage.flags.recall_order();
    if storage.config.is_none() {
        return Err(ContractError::Std(StdError::NotFound));
    }
    check_access(storage, &info, querier)?;
    let flag = storage.flags.contains(subject.as_str());
    let mut attributes: Vec<Attribute> = Vec::new();
    assert(attribute_views(attributes@) =~= Seq::empty());
    if flag {
        push_attr(&mut attributes, "action", "already raised flag".to_owned());
        push_attr(&mut attributes, "subject", subject);
        assert(attribute_views(attributes@) =~= told(
            "already raised flag"@,
            "subject"@,
            subject@,
        ));
        Ok(Response::new().add_attributes(attributes))
    } else {
        push_attr(&mut attributes, "action", "raised flag".to_owned());
        push_attr(&mut attributes, "subject", subject.clone());
        assert(attribute_views(attributes@) =~= told("raised flag"@, "subject"@, subject@));
        storage.flags.insert(subject, ());
        storage.flags.recall_order();
        Ok(Response::new().add_attributes(attributes))
    }
}

/// One who may raises the flags of `subjects`.
pub fn execute_raise_flags(
    storage: &mut Storage,
    _env: Env,
    info: MessageInfo,
    subjects: Vec<String>,
    querier: &Querier,
) -> (res: Result<Response, ContractError>)
    ensures
        came_out(
            old(storage)@.raise_flags(info.sender@, text_views(subjects@), *querier),
            res,
            old(storage)@,
            final(storage)@,
        ),
        final(storage)@.wf(),
{
    storage.flags.recall_order();
    if storage.config.is_none() {
        return Err(ContractError::Std(StdError::NotFound));
    }
    check_access(storage, &info, querier)?;
    let ghost before = storage@;
    let ghost names = text_views(subjects@);
    let mut attributes: Vec<Attribute> = Vec::new();
    let mut i: usize = 0;
    assert(names.subrange(0, 0) =~= Seq::empty());
    assert(attribute_views(attributes@) =~= Seq::empty());
    while i < subjects.len()
        invariant
            i <= subjects@.len(),
            names == text_views(subjects@),
            storage@ == (StorageView { flags: storage@.flags, ..before }),
            raised(before.flags, names.subrange(0, i as int)) == (
                storage@.flags,
                attribute_views(attributes@),
            ),
        decreases subjects@.len() - i,
    {
        proof {
            assert(names.subrange(0, i + 1).drop_last() =~= names.subrange(0, i as int));
            assert(names.subrange(0, i + 1).last() == names[i as int]);
        }
        let ghost told_before = attribute_views(attributes@);
        let flag = storage.flags.contains(subjects[i].as_str());
        if flag {
            push_attr(&mut attributes, "action", "already raised flag".to_owned());
            push_attr(&mut attributes, "subject", subjects[i].clone());
            assert(attribute_views(attributes@) =~= told_before + told(
                "already raised flag"@,
                "subject"@,
                names[i as int],
            ));
        } else {
            storage.flags.insert(subjects[i].clone(), ());
            push_attr(&mut attributes, "action", "flag raised".to_owned());
            push_attr(&mut attributes, "subject", subjects[i].clone());
            assert(attribute_views(attributes@) =~= told_before + told(
                "flag raised"@,
                "subject"@,
                names[i as int],
            ));
        }
        i = i + 1;
    }
    assert(names.subrange(0, i as int) =~= names);
    storage.flags.recall_order();
    Ok(Response::new().add_attributes(attributes))
}

/// One who may lowers the flags of `subjects`.
pub fn execute_lower_flags(
    storage: &mut Storage,
    _env: Env,
    info: MessageInfo,
    subjects: Vec<String>,
    querier: &Querier,
) -> (res: Result<Response, ContractError>)
    ensures
        came_out(
            old(storage)@.lower_flags(info.sender@, text_views(subjects@), *querier),
            res,
            old(storage)@,
            final(storage)@,
        ),
        final(storage)@.wf(),
{
    storage.flags.recall_order();
    if storage.config.is_none() {
        return Err(ContractError::Std(StdError::NotFound));
    }
    check_access(storage, &info, querier)?;
    let ghost before = storage@;
    let ghost names = text_views(subjects@);
    let mut attributes: Vec<Attribute> = Vec::new();
    let mut i: usize = 0;
    assert(names.subrange(0, 0) =~= Seq::empty());
    assert(attribute_views(attributes@) =~= Seq::empty());
    while i < subjects.len()
        invariant
            i <= subjects@.len(),
            names == text_views(subjects@),
            storage@ == (StorageView { flags: storage@.flags, ..before }),
            lowered(before.flags, names.subrange(0, i as int)) == (
                storage@.flags,
                attribute_views(attributes@),
            ),
        decreases subjects@.len() - i,
    {
        proof {
            assert(names.subrange(0, i + 1).drop_last() =~= names.subrange(0, i as int));
            assert(names.subrange(0, i + 1).last() == names[i as int]);
        }
        let ghost told_before = attribute_views(attributes@);
        let flag = storage.flags.contains(subjects[i].as_str());
        if flag {
            storage.flags.remove(subjects[i].as_str());
            push_attr(&mut attributes, "action", "flag lowered".to_owned());
            push_attr(&mut attributes, "address", subjects[i].clone());
            assert(attribute_views(attributes@) =~= told_before + told(
                "flag lowered"@,
                "address"@,
                names[i as int],
            ));
        }
        i = i + 1;
    }
    assert(names.subrange(0, i as int) =~= names);
    storage.flags.recall_order();
    Ok(Response::new().add_attributes(attributes))
}

/// The owner names the access controller for raising.
pub fn execute_set_raising_access_controller(
    storage: &mut Storage,
    env: Env,
    info: MessageInfo,
    rac_address: String,
) -> (res: Result<Response, ContractError>)
    ensures
        came_out(
            old(storage)@.set_raising_access_controller(info.sender@, rac_address@),
            res,
            old(storage)@,
            final(storage)@,
        ),
        final(storage)@.wf(),
{
    storage.flags.recall_order();
    validate_ownership(storage, &env, &info)?;
    let config = match &mut storage.config {
        Some(config) => config,
        None => {
            return Err(ContractError::Std(StdError::NotFound));
        },
    };
    let previous = config.raising_access_controller.addr();
    config.raising_access_controller = AccessControllerContract(rac_address.clone());
    Ok(
        Response::new().add_attribute(
            "action",
            "raising access controller updated".to_owned(),
        ).add_attribute("address", rac_address).add_attribute("previous", previous),
    )
}

/// Whether the flag of `subject` is raised.
pub fn query_flag(storage: &Storage, subject: String) -> (res: Result<bool, ContractError>)
    ensures
        res == Ok::<bool, ContractError>(has_key(storage@.flags, subject@)),
{
    Ok(storage.flags.contains(subject.as_str()))
}

/// Whether the flag of each of `subjects` is raised.
pub fn query_flags(storage: &Storage, subjects: Vec<String>) -> (res: Result<Vec<bool>, ContractError>)
    ensures
        res is Ok,
        res->Ok_0@.len() == subjects@.len(),
        forall|i: int|
            0 <= i < subjects@.len() ==> res->Ok_0@[i] == has_key(
                storage@.flags,
                (#[trigger] subjects@[i])@,
            ),
{
    let mut flags: Vec<bool> = Vec::new();
    let mut i: usize = 0;
    while i < subjects.len()
        invariant
            i <= subjects@.len(),
            flags@.len() == i,
            forall|j: int|
                0 <= j < i ==> flags@[j] == has_key(storage@.flags, (#[trigger] subjects@[j])@),
        decreases subjects@.len() - i,
    {
        flags.push(storage.flags.contains(subjects[i].as_str()));
        i = i + 1;
    }
    Ok(flags)
}

/// The access controller for raising.
pub fn query_raising_access_controller(storage: &Storage) -> (res: Result<String, ContractError>)
    ensures
        match storage@.config {
            Some(c) => res is Ok && res->Ok_0@ == c.0,
            None => res == Err::<String, ContractError>(ContractError::Std(StdError::NotFound)),
        },
{
    match &storage.config {
        Some(config) => Ok(config.raising_access_controller.addr()),
        None => Err(ContractError::Std(StdError::NotFound)),
    }
}

fn validate_ownership(storage: &Storage, _env: &Env, info: &MessageInfo) -> (res: Result<
    (),
    ContractError,
>)
    ensures
        res == storage@.validate_ownership(info.sender@),
{
    match storage.owner.is_owner(&info.sender) {
        Err(e) => Err(ContractError::Std(e)),
        Ok(false) => Err(ContractError::Unauthorized),
        Ok(true) => Ok(()),
    }
}

fn check_access(storage: &Storage, info: &MessageInfo, querier: &Querier) -> (res: Result<
    (),
    ContractError,
>)
    ensures
        res == storage@.check_access(info.sender@, *querier),
{
    match storage.owner.is_owner(&info.sender) {
        Err(e) => Err(ContractError::Std(e)),
        Ok(true) => Ok(()),
        Ok(false) => match querier.has_access {
            None => Err(ContractError::Std(StdError::QueryFailed)),
            Some(false) => Err(ContractError::Unauthorized),
            Some(true) => Ok(()),
        },
    }
}

} // verus!
