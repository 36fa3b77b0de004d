//! The bounds that a registry is created with.

use vstd::prelude::*;

verus! {

/// The limits a registry enforces on every record it accepts.
///
/// Both are ordinary run-time values, fixed when the registry is created.
#[derive(Clone, Copy, Debug, PartialEq, Eq, Structural)]
pub struct Config {
    /// Greatest number of bytes a stored name may have.
    pub max_name_length_bytes: u32,
    /// Exclusive upper limit of a stored age: an age is accepted only below it.
    pub max_age_of_person: u32,
}

impl Config {
    /// A configuration with the given limits.
    pub fn new(max_name_length_bytes: u32, max_age_of_person: u32) -> (config: Config)
        ensures
            config.max_name_length_bytes == max_name_length_bytes,
            config.max_age_of_person == max_age_of_person,
    {
        Config { max_name_length_bytes, max_age_of_person }
    }
}

} // verus!
