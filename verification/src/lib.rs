//! An identity-keyed registry of people.
//!
//! Every account may file at most one [`Person`] record. A registration is
//! checked against the bounds of a [`Config`], stored, and announced by an
//! [`Event`]; a rejected registration leaves the registry exactly as it was.
//! All executable code of this crate is verified against the contracts it
//! states.

pub mod config;
pub mod error;
pub mod event;
pub mod laws;
pub mod name;
pub mod pallet;
pub mod person;
pub mod store;

pub use crate::config::Config;
pub use crate::error::Error;
pub use crate::event::{AccountId, Event};
pub use crate::name::{validate_name, Name};
pub use crate::pallet::{check_registration, Pallet, RegistryView};
pub use crate::person::{validate_age, Age, Job, Person, PersonView};
pub use crate::store::PeopleRegistry;
