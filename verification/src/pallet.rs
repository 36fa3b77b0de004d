//! The registry service: the one operation that changes the registry, and
//! the read that goes with it.

use vstd::prelude::*;
use crate::config::Config;
use crate::error::Error;
use crate::event::{AccountId, Event};
use crate::name::{name_fits, validate_name};
use crate::person::{age_in_range, validate_age, Age, Job, Person, PersonView};
use crate::store::PeopleRegistry;

verus! {

/// The verdict on a registration, from what is known of it.
///
/// The checks come in a fixed order, and the first that fails names the
/// error: an account that already has a record is turned down whatever the
/// fields are, then the age is held to its limit, then the name to its own.
pub open spec fn registration_outcome(
    config: Config,
    already_registered: bool,
    name: Seq<u8>,
    age: Age,
) -> Result<(), Error> {
    if already_registered {
        Err(Error::AlreadyExistsInRegistry)
    } else if !age_in_range(age, config.max_age_of_person) {
        Err(Error::MaxAgeExceeded)
    } else if !name_fits(name, config.max_name_length_bytes) {
        Err(Error::NameTooLong)
    } else {
        Ok(())
    }
}

/// Decides on a registration without touching any registry.
///
/// `already_registered` says whether the account has a record wherever the
/// records are kept. An accepted registration yields the record to store.
pub fn check_registration(
    config: &Config,
    already_registered: bool,
    name: Vec<u8>,
    age: Age,
    job: Job,
) -> (res: Result<Person, Error>)
    ensures
        match res {
            Ok(person) => {
                &&& registration_outcome(*config, already_registered, name@, age) is Ok
                &&& person@ == (PersonView { name: name@, age, job })
            },
            Err(e) => registration_outcome(*config, already_registered, name@, age) == Err::<
                (),
                Error,
            >(e),
        },
{
    if already_registered {
        return Err(Error::AlreadyExistsInRegistry);
    }
    match validate_age(age, config.max_age_of_person) {
        Ok(()) => {},
        Err(e) => {
            return Err(e);
        },
    }
    match validate_name(name, config.max_name_length_bytes) {
        Ok(name) => Ok(Person { name, age, job }),
        Err(e) => Err(e),
    }
}

/// What a registry is, as a mathematical value: its limits, the record of
/// each registered account, and the events given out so far, oldest first.
pub struct RegistryView {
    pub config: Config,
    pub people: Map<AccountId, PersonView>,
    pub events: Seq<Event>,
}

impl RegistryView {
    /// The registry with the limits of `config` that nobody has registered
    /// with yet.
    pub open spec fn empty(config: Config) -> RegistryView {
        RegistryView { config, people: Map::empty(), events: Seq::empty() }
    }

    /// Every stored record respects the limits of the registry.
    pub open spec fn wf(self) -> bool {
        forall|account_id: AccountId| #[trigger]
            self.people.contains_key(account_id) ==> self.people[account_id].valid_for(
                self.config,
            )
    }

    /// The record of `account_id`, if it is registered.
    pub open spec fn lookup(self, account_id: AccountId) -> Option<PersonView> {
        if self.people.contains_key(account_id) {
            Some(self.people[account_id])
        } else {
            None
        }
    }

    /// The verdict on a registration of `signer` in this state.
    pub open spec fn outcome(self, signer: AccountId, name: Seq<u8>, age: Age) -> Result<
        (),
        Error,
    > {
        registration_outcome(self.config, self.people.contains_key(signer), name, age)
    }

    /// The state after `signer` asked to be registered: with the new record
    /// and its event where the registration is accepted, unchanged where it
    /// is not.
    pub open spec fn register(self, signer: AccountId, name: Seq<u8>, age: Age, job: Job)
        -> RegistryView {
        if self.outcome(signer, name, age) is Ok {
            RegistryView {
                config: self.config,
                people: self.people.insert(signer, PersonView { name, age, job }),
                events: self.events.push(Event::PersonAdded { account_id: signer, age }),
            }
        } else {
            self
        }
    }
}

/// A registry of people, one record at most for each account.
///
/// Records come in through [`Pallet::add_registry`] alone, and are never
/// changed or removed afterwards.
pub struct Pallet {
    config: Config,
    people: PeopleRegistry,
    events: Vec<Event>,
}

impl View for Pallet {
    type V = RegistryView;

    closed spec fn view(&self) -> RegistryView {
        RegistryView { config: self.config, people: self.people@, events: self.events@ }
    }
}

impl Pallet {
    #[verifier::type_invariant]
    spec fn inv(self) -> bool {
        self@.wf()
    }

    /// An empty registry with the limits of `config`.
    pub fn new(config: Config) -> (registry: Pallet)
        ensures
            registry@ == RegistryView::empty(config),
    {
        Pallet { config, people: PeopleRegistry::new(), events: Vec::new() }
    }

    /// The limits this registry was created with.
    pub fn config(&self) -> (config: Config)
        ensures
            config == self@.config,
    {
        self.config
    }

    /// Registers `signer` with the given name, age and job.
    ///
    /// The caller vouches for `signer`: the registry takes the account as
    /// given. The registration is accepted when `signer` has no record yet,
    /// `age` is below the age limit and `name` within the length limit; the
    /// record is then stored and a [`Event::PersonAdded`] given out. It is
    /// rejected otherwise, with the first of these checks that failed, and
    /// the registry stays as it was.
    pub fn add_registry(&mut self, signer: AccountId, name: Vec<u8>, age: Age, job: Job) -> (res:
        Result<(), Error>)
        ensures
            res == old(self)@.outcome(signer, name@, age),
            final(self)@ == old(self)@.register(signer, name@, age, job),
            res is Err ==> final(self)@ == old(self)@,
            old(self)@.wf(),
            final(self)@.wf(),
    {
        proof {
            use_type_invariant(&*self);
        }
        let already_registered = self.people.contains_key(signer);
        match check_registration(&self.config, already_registered, name, age, job) {
            Ok(person) => {
                let mut people = PeopleRegistry::new();
                core::mem::swap(&mut people, &mut self.people);
                people.insert(signer, person);
                self.people = people;
                let mut events: Vec<Event> = Vec::new();
                core::mem::swap(&mut events, &mut self.events);
                events.push(Event::PersonAdded { account_id: signer, age });
                self.events = events;
                Ok(())
            },
            Err(e) => Err(e),
        }
    }

    /// The record stored for `account_id`, if it is registered.
    pub fn people_registry(&self, account_id: AccountId) -> (found: Option<Person>)
        ensures
            match found {
                Some(person) => {
                    &&& self@.lookup(account_id) == Some(person@)
                    &&& person@.valid_for(self@.config)
                },
                None => self@.lookup(account_id) is None,
            },
    {
        proof {
            use_type_invariant(self);
        }
        self.people.get(account_id)
    }

    /// Whether `account_id` is registered.
    pub fn is_registered(&self, account_id: AccountId) -> (found: bool)
        ensures
            found == self@.people.contains_key(account_id),
    {
        self.people.contains_key(account_id)
    }

    /// The events given out so far, oldest first.
    pub fn events(&self) -> (events: &Vec<Event>)
        ensures
            events@ == self@.events,
    {
        &self.events
    }
}

} // verus!
