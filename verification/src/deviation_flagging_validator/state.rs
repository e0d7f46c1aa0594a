use crate::host::ContractVersion;
use crate::owned::{Auth, AuthView};
use vstd::prelude::*;

verus! {

/// The threshold, and the flags registry that is told of answers beyond it.
#[derive(Clone, Debug, PartialEq, Eq)]
pub struct State {
    pub flagging_threshold: u32,
    pub flags: String,
}

impl View for State {
    type V = (u32, Seq<char>);

    open spec fn view(&self) -> (u32, Seq<char>) {
        (self.flagging_threshold, self.flags@)
    }
}

/// What the validator keeps between calls.
#[derive(Clone, Debug, PartialEq, Eq)]
pub struct Storage {
    pub version: Option<ContractVersion>,
    pub owner: Auth,
    pub config: Option<State>,
}

/// `Storage` as contracts speak of it: each text as its characters, each byte string as
/// its bytes.
pub ghost struct StorageView {
    pub version: Option<(Seq<char>, Seq<char>)>,
    pub owner: AuthView,
    /// The threshold and the flags registry.
    pub config: Option<(u32, Seq<char>)>,
}

impl View for Storage {
    type V = StorageView;

    open spec fn view(&self) -> StorageView {
        StorageView {
            version: match self.version {
                Some(v) => Some(v@),
                None => None,
            },
            owner: self.owner@,
            config: match self.config {
                Some(c) => Some(c@),
                None => None,
            },
        }
    }
}

impl Storage {
    /// The storage of a contract that has not been instantiated.
    pub fn new() -> (s: Storage)
        ensures
            s@ == (StorageView {
                version: None,
                owner: AuthView { namespace: "owner"@, state: None },
                config: None,
            }),
    {
        Storage { version: None, owner: Auth::new("owner"), config: None }
    }
}

} // verus!
