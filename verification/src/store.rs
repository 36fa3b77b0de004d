//! The keyed store that holds the records.

use std::collections::HashMap;
use vstd::prelude::*;
use crate::event::AccountId;
use crate::person::{Person, PersonView};

verus! {

broadcast use vstd::std_specs::hash::group_hash_axioms;

/// The records of a registry, one at most for each account.
pub struct PeopleRegistry {
    entries: HashMap<AccountId, Person>,
}

impl View for PeopleRegistry {
    type V = Map<AccountId, PersonView>;

    /// The record of each account that has one.
    closed spec fn view(&self) -> Map<AccountId, PersonView> {
        self.entries@.map_values(|person: Person| person@)
    }
}

impl PeopleRegistry {
    /// A store without records.
    pub fn new() -> (store: PeopleRegistry)
        ensures
            store@ == Map::<AccountId, PersonView>::empty(),
    {
        let store = PeopleRegistry { entries: HashMap::new() };
        assert(store@ =~= Map::<AccountId, PersonView>::empty());
        store
    }

    /// Whether `account_id` has a record.
    pub fn contains_key(&self, account_id: AccountId) -> (found: bool)
        ensures
            found == self@.contains_key(account_id),
    {
        self.entries.contains_key(&account_id)
    }

    /// A copy of the record of `account_id`, if it has one.
    pub fn get(&self, account_id: AccountId) -> (found: Option<Person>)
        ensures
            match found {
                Some(person) => self@.contains_key(account_id) && person@ == self@[account_id],
                None => !self@.contains_key(account_id),
            },
    {
        match self.entries.get(&account_id) {
            Some(person) => Some(person.clone()),
            None => None,
        }
    }

    /// Stores `person` for `account_id`, in place of any record it had.
    pub fn insert(&mut self, account_id: AccountId, person: Person)
        ensures
            final(self)@ == old(self)@.insert(account_id, person@),
    {
        self.entries.insert(account_id, person);
        assert(self@ =~= old(self)@.insert(account_id, person@));
    }
}

} // verus!
