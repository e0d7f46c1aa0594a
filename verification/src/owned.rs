//! Ownership of a contract, handed over in two steps: the owner names a
//! successor, and the successor accepts.

use crate::host::{came_out, Event, EventView, MessageInfo, Response, ResponseView, StdError};
use vstd::prelude::*;

verus! {

/// Why a change of ownership was refused.
#[derive(Clone, Copy, Debug, PartialEq, Eq, Structural)]
pub enum Error {
    Std(StdError),
    Unauthorized,
}

impl Error {
    /// The text of the error.
    pub open spec fn message(self) -> Seq<char> {
        match self {
            Error::Std(e) => e.message(),
            Error::Unauthorized => "Unauthorized"@,
        }
    }

    /// The text of the error.
    pub fn to_string(&self) -> (s: String)
        ensures
            s@ == self.message(),
    {
        match self {
            Error::Std(e) => e.to_string(),
            Error::Unauthorized => "Unauthorized".to_owned(),
        }
    }
}

/// The owner, and the successor that the owner has named, if any.
#[derive(Clone, Debug, PartialEq, Eq)]
pub struct State {
    pub owner: String,
    pub proposed_owner: Option<String>,
}

/// `State` as contracts speak of it: each text as its characters, each byte string as
/// its bytes.
pub ghost struct StateView {
    pub owner: Seq<char>,
    pub proposed_owner: Option<Seq<char>>,
}

impl View for State {
    type V = StateView;

    open spec fn view(&self) -> StateView {
        StateView {
            owner: self.owner@,
            proposed_owner: match self.proposed_owner {
                Some(p) => Some(p@),
                None => None,
            },
        }
    }
}

/// The place where a contract keeps its ownership. It is empty until the
/// contract is instantiated.
#[derive(Clone, Debug, PartialEq, Eq)]
pub struct Auth {
    pub namespace: String,
    pub state: Option<State>,
}

/// `Auth` as contracts speak of it: each text as its characters, each byte string as
/// its bytes.
pub ghost struct AuthView {
    pub namespace: Seq<char>,
    pub state: Option<StateView>,
}

impl View for Auth {
    type V = AuthView;

    open spec fn view(&self) -> AuthView {
        AuthView {
            namespace: self.namespace@,
            state: match self.state {
                Some(s) => Some(s@),
                None => None,
            },
        }
    }
}

impl AuthView {
    /// Whether `caller` owns the contract.
    pub open spec fn is_owner(self, caller: Seq<char>) -> Result<bool, StdError> {
        match self.state {
            Some(s) => Ok(caller == s.owner),
            None => Err(StdError::NotFound),
        }
    }

    /// The owner `sender` names `to` as successor; a successor named before is
    /// forgotten.
    pub open spec fn transfer_ownership(self, sender: Seq<char>, to: Seq<char>) -> Result<
        (AuthView, ResponseView),
        Error,
    > {
        match self.state {
            None => Err(Error::Std(StdError::NotFound)),
            Some(s) => if sender != s.owner {
                Err(Error::Unauthorized)
            } else {
                Ok(
                    (
                        AuthView {
                            state: Some(StateView { proposed_owner: Some(to), ..s }),
                            ..self
                        },
                        ResponseView::new().event(
                            EventView::new("ownership_transfer_requested"@).attr(
                                "from"@,
                                s.owner,
                            ).attr("to"@, to),
                        ),
                    ),
                )
            },
        }
    }

    /// The named successor `sender` becomes the owner.
    pub open spec fn accept_ownership(self, sender: Seq<char>) -> Result<
        (AuthView, ResponseView),
        Error,
    > {
        match self.state {
            None => Err(Error::Std(StdError::NotFound)),
            Some(s) => if s.proposed_owner != Some(sender) {
                Err(Error::Unauthorized)
            } else {
                Ok(
                    (
                        AuthView {
                            state: Some(StateView { owner: sender, proposed_owner: None }),
                            ..self
                        },
                        ResponseView::new().event(
                            EventView::new("ownership_transfer_requested"@).attr(
                                "from"@,
                                s.owner,
                            ).attr("to"@, sender),
                        ),
                    ),
                )
            },
        }
    }
}

impl Auth {
    /// The empty place of the name `namespace`.
    pub fn new(namespace: &str) -> (a: Auth)
        ensures
            a@ == (AuthView { namespace: namespace@, state: None }),
    {
        Auth { namespace: namespace.to_owned(), state: None }
    }

    /// Makes `owner` the owner, with no successor named.
    pub fn initialize(&mut self, owner: String) -> (res: Result<(), StdError>)
        ensures
            res is Ok,
            final(self)@ == (AuthView {
                state: Some(StateView { owner: owner@, proposed_owner: None }),
                ..old(self)@
            }),
    {
        self.state = Some(State { owner, proposed_owner: None });
        Ok(())
    }

    /// The owner and the named successor.
    pub fn get(&self) -> (res: Result<State, StdError>)
        ensures
            match self@.state {
                Some(s) => res is Ok && res->Ok_0@ == s,
                None => res == Err::<State, StdError>(StdError::NotFound),
            },
    {
        match &self.state {
            Some(s) => {
                let proposed_owner = match &s.proposed_owner {
                    Some(p) => Some(p.clone()),
                    None => None,
                };
                Ok(State { owner: s.owner.clone(), proposed_owner })
            },
            None => Err(StdError::NotFound),
        }
    }

    /// Whether `caller` owns the contract.
    pub fn is_owner(&self, caller: &String) -> (res: Result<bool, StdError>)
        ensures
            res == self@.is_owner(caller@),
    {
        match &self.state {
            Some(s) => Ok(*caller == s.owner),
            None => Err(StdError::NotFound),
        }
    }

    /// Fails unless `caller` owns the contract.
    pub fn assert_owner(&self, caller: &String) -> (res: Result<(), Error>)
        ensures
            res == match self@.is_owner(caller@) {
                Ok(true) => Ok::<(), Error>(()),
                Ok(false) => Err(Error::Unauthorized),
                Err(e) => Err(Error::Std(e)),
            },
    {
        match self.is_owner(caller) {
            Ok(true) => Ok(()),
            Ok(false) => Err(Error::Unauthorized),
            Err(e) => Err(Error::Std(e)),
        }
    }

    /// The owner names `to` as successor.
    pub fn execute_transfer_ownership(&mut self, info: MessageInfo, to: String) -> (res: Result<
        Response,
        Error,
    >)
        ensures
            came_out(
                old(self)@.transfer_ownership(info.sender@, to@),
                res,
                old(self)@,
                final(self)@,
            ),
    {
        match &mut self.state {
            None => Err(Error::Std(StdError::NotFound)),
            Some(s) => {
                if info.sender != s.owner {
                    return Err(Error::Unauthorized);
                }
                let event = Event::new("ownership_transfer_requested").add_attribute(
                    "from",
                    s.owner.clone(),
                ).add_attribute("to", to.clone());
                s.proposed_owner = Some(to);
                Ok(Response::new().add_event(event))
            },
        }
    }

    /// The named successor becomes the owner.
    pub fn execute_accept_ownership(&mut self, info: MessageInfo) -> (res: Result<Response, Error>)
        ensures
            came_out(old(self)@.accept_ownership(info.sender@), res, old(self)@, final(self)@),
    {
        match &mut self.state {
            None => Err(Error::Std(StdError::NotFound)),
            Some(s) => {
                let accepted = match &s.proposed_owner {
                    Some(p) => *p == info.sender,
                    None => false,
                };
                if !accepted {
                    return Err(Error::Unauthorized);
                }
                let event = Event::new("ownership_transfer_requested").add_attribute(
                    "from",
                    s.owner.clone(),
                ).add_attribute("to", info.sender.clone());
                s.owner = info.sender;
                s.proposed_owner = None;
                Ok(Response::new().add_event(event))
            },
        }
    }

    /// The owner.
    pub fn query_owner(&self) -> (res: Result<String, StdError>)
        ensures
            match self@.state {
                Some(s) => res is Ok && res->Ok_0@ == s.owner,
                None => res == Err::<String, StdError>(StdError::NotFound),
            },
    {
        match &self.state {
            Some(s) => Ok(s.owner.clone()),
            None => Err(StdError::NotFound),
        }
    }
}

} // verus!
