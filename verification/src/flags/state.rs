use crate::access_controller::AccessControllerContract;
use crate::host::ContractVersion;
use crate::owned::{Auth, AuthView};
use crate::table::{ascending, Table};
use vstd::prelude::*;

verus! {

/// The access controllers that are asked who may raise and who may lower flags.
#[derive(Clone, Debug, PartialEq, Eq)]
pub struct Config {
    pub raising_access_controller: AccessControllerContract,
    pub lowering_access_controller: AccessControllerContract,
}

impl View for Config {
    type V = (Seq<char>, Seq<char>);

    open spec fn view(&self) -> (Seq<char>, Seq<char>) {
        (self.raising_access_controller@, self.lowering_access_controller@)
    }
}

/// What the registry keeps between calls.
#[derive(Clone, Debug, PartialEq, Eq)]
pub struct Storage {
    pub version: Option<ContractVersion>,
    pub owner: Auth,
    pub config: Option<Config>,
    /// The subjects whose flags are raised.
    pub flags: Table<()>,
}

/// `Storage` as contracts speak of it: each text as its characters, each byte string as
/// its bytes.
pub ghost struct StorageView {
    pub version: Option<(Seq<char>, Seq<char>)>,
    pub owner: AuthView,
    /// The controllers for raising and for lowering.
    pub config: Option<(Seq<char>, Seq<char>)>,
    pub flags: Seq<(Seq<char>, ())>,
}

impl View for Storage {
    type V = StorageView;

    open spec fn view(&self) -> StorageView {
        StorageView {
            version: match self.version {
                Some(v) => Some(v@),
                None => None,
            },
            owner: self.owner@,
            config: match self.config {
                Some(c) => Some(c@),
                None => None,
            },
            flags: self.flags@,
        }
    }
}

impl StorageView {
    /// The subjects are in order, none twice.
    pub open spec fn wf(self) -> bool {
        ascending(self.flags)
    }
}

impl Storage {
    /// The storage of a contract that has not been instantiated.
    pub fn new() -> (s: Storage)
        ensures
            s@.wf(),
            s@ == (StorageView {
                version: None,
                owner: AuthView { namespace: "owner"@, state: None },
                config: None,
                flags: Seq::empty(),
            }),
    {
        Storage { version: None, owner: Auth::new("owner"), config: None, flags: Table::new() }
    }
}

} // verus!
