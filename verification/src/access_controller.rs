//! The access controller: a list of addresses, kept by an owner, that other
//! contracts ask before they let a caller act.

pub mod contract;
pub mod error;
pub mod msg;
pub mod state;

use crate::table::{has_key, Table};
use vstd::prelude::*;

verus! {

/// The address of an access controller.
#[derive(Clone, Debug, PartialEq, Eq)]
pub struct AccessControllerContract(pub String);

impl View for AccessControllerContract {
    type V = Seq<char>;

    open spec fn view(&self) -> Seq<char> {
        self.0@
    }
}

impl AccessControllerContract {
    /// The controller's address.
    pub fn addr(&self) -> (a: String)
        ensures
            a@ == self@,
    {
        self.0.clone()
    }

    /// Whether the list `access`, read from the controller, grants `address`.
    pub fn has_access(&self, access: &Table<()>, address: &String) -> (res: bool)
        ensures
            res == has_key(access@, address@),
    {
        access.contains(address.as_str())
    }
}

} // verus!
