use crate::host::ContractVersion;
use crate::owned::{Auth, AuthView};
use crate::table::{ascending, Table};
use vstd::prelude::*;

verus! {

/// What the access controller keeps between calls.
#[derive(Clone, Debug, PartialEq, Eq)]
pub struct Storage {
    /// The contract's name and version, as the last instantiation or
    /// migration recorded them.
    pub version: Option<ContractVersion>,
    pub owner: Auth,
    /// The addresses that have access.
    pub access: Table<()>,
}

/// `Storage` as contracts speak of it: each text as its characters, each byte string as
/// its bytes.
pub ghost struct StorageView {
    pub version: Option<(Seq<char>, Seq<char>)>,
    pub owner: AuthView,
    pub access: Seq<(Seq<char>, ())>,
}

impl View for Storage {
    type V = StorageView;

    open spec fn view(&self) -> StorageView {
        StorageView {
            version: match self.version {
                Some(v) => Some(v@),
                None => None,
            },
            owner: self.owner@,
            access: self.access@,
        }
    }
}

impl StorageView {
    /// The addresses are in order, none twice.
    pub open spec fn wf(self) -> bool {
        ascending(self.access)
    }
}

impl Storage {
    /// The storage of a contract that has not been instantiated.
    pub fn new() -> (s: Storage)
        ensures
            s@.wf(),
            s@ == (StorageView {
                version: None,
                owner: AuthView { namespace: "owner"@, state: None },
                access: Seq::empty(),
            }),
    {
        Storage { version: None, owner: Auth::new("owner"), access: Table::new() }
    }
}

} // verus!
