//! Why a registration is turned down.

use vstd::prelude::*;

verus! {

/// The reasons for which the registry rejects a registration.
///
/// Every rejection is reported to the caller and changes nothing.
#[derive(Clone, Copy, Debug, PartialEq, Eq, Structural)]
pub enum Error {
    /// Trying to add a person over the age limit.
    MaxAgeExceeded,
    /// The person already exists in the registry.
    AlreadyExistsInRegistry,
    /// The name has more bytes than the registry stores.
    NameTooLong,
}

} // verus!
