//! What the registry announces.

use vstd::prelude::*;
use crate::person::Age;

verus! {

/// An account, as the registry knows it: a value that is only ever compared.
pub type AccountId = u64;

/// A notification that the registry gives out.
#[derive(Clone, Copy, Debug, PartialEq, Eq, Structural)]
pub enum Event {
    /// A person was stored for `account_id`.
    PersonAdded { account_id: AccountId, age: Age },
}

} // verus!
