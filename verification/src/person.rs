//! The record kept for one account.

use core::cmp::Ordering;
use vstd::prelude::*;
use crate::config::Config;
use crate::error::Error;
use crate::name::{
    bytes_lt, lemma_bytes_lt_asymmetric, lemma_bytes_lt_total, lemma_bytes_lt_transitive, Name,
};

verus! {

/// Age of a person, in years.
pub type Age = u32;

/// What a person does for a living.
#[derive(Clone, Copy, Debug, PartialEq, Eq, Ord, Hash, Structural)]
pub enum Job {
    Programmer,
    Artist,
}

impl Job {
    /// Place of the job in the order of jobs: `Programmer` comes first.
    pub open spec fn rank(self) -> int {
        match self {
            Job::Programmer => 0,
            Job::Artist => 1,
        }
    }
}

/// How the job `a` stands to the job `b`.
pub open spec fn job_order(a: Job, b: Job) -> Ordering {
    if a == b {
        Ordering::Equal
    } else if a.rank() < b.rank() {
        Ordering::Less
    } else {
        Ordering::Greater
    }
}

impl PartialOrd for Job {
    fn partial_cmp(&self, other: &Job) -> (r: Option<Ordering>) {
        match (*self, *other) {
            (Job::Programmer, Job::Programmer) => Some(Ordering::Equal),
            (Job::Programmer, Job::Artist) => Some(Ordering::Less),
            (Job::Artist, Job::Programmer) => Some(Ordering::Greater),
            (Job::Artist, Job::Artist) => Some(Ordering::Equal),
        }
    }
}

impl vstd::std_specs::cmp::PartialOrdSpecImpl for Job {
    open spec fn obeys_partial_cmp_spec() -> bool {
        true
    }

    open spec fn partial_cmp_spec(&self, other: &Job) -> Option<Ordering> {
        Some(job_order(*self, *other))
    }
}

/// Whether `age` lies below the limit `max_age`.
pub open spec fn age_in_range(age: Age, max_age: u32) -> bool {
    age < max_age
}

/// Accepts an age exactly when it is strictly below `max_age`.
pub fn validate_age(age: Age, max_age: u32) -> (res: Result<(), Error>)
    ensures
        age_in_range(age, max_age) ==> res == Ok::<(), Error>(()),
        !age_in_range(age, max_age) ==> res == Err::<(), Error>(Error::MaxAgeExceeded),
{
    if age < max_age {
        Ok(())
    } else {
        Err(Error::MaxAgeExceeded)
    }
}

/// What a [`Person`] stands for: the bytes of the name, the age and the job.
pub struct PersonView {
    pub name: Seq<u8>,
    pub age: Age,
    pub job: Job,
}

impl PersonView {
    /// Whether a registry with the limits of `config` may hold this record.
    pub open spec fn valid_for(self, config: Config) -> bool {
        &&& self.name.len() <= config.max_name_length_bytes
        &&& self.age < config.max_age_of_person
    }
}

/// The strict order of records: by name, then by age, then by job.
pub open spec fn person_lt(a: PersonView, b: PersonView) -> bool {
    ||| bytes_lt(a.name, b.name)
    ||| a.name == b.name && a.age < b.age
    ||| a.name == b.name && a.age == b.age && a.job.rank() < b.job.rank()
}

/// How the record `a` stands to the record `b`.
pub open spec fn person_order(a: PersonView, b: PersonView) -> Ordering {
    if a == b {
        Ordering::Equal
    } else if person_lt(a, b) {
        Ordering::Less
    } else {
        Ordering::Greater
    }
}

/// The order of records is strict: of two records at most one comes before
/// the other, and none before itself.
pub proof fn lemma_person_lt_asymmetric(a: PersonView, b: PersonView)
    requires
        person_lt(a, b),
    ensures
        !person_lt(b, a),
        a != b,
{
    if bytes_lt(a.name, b.name) {
        lemma_bytes_lt_asymmetric(a.name, b.name);
    }
    if bytes_lt(b.name, a.name) {
        lemma_bytes_lt_asymmetric(b.name, a.name);
    }
}

/// The order of records is total: two different records are always ordered
/// one way or the other.
pub proof fn lemma_person_lt_total(a: PersonView, b: PersonView)
    ensures
        a == b || person_lt(a, b) || person_lt(b, a),
{
    lemma_bytes_lt_total(a.name, b.name);
}

/// The order of records is transitive.
pub proof fn lemma_person_lt_transitive(a: PersonView, b: PersonView, c: PersonView)
    requires
        person_lt(a, b),
        person_lt(b, c),
    ensures
        person_lt(a, c),
{
    if bytes_lt(a.name, b.name) && bytes_lt(b.name, c.name) {
        lemma_bytes_lt_transitive(a.name, b.name, c.name);
    }
}

/// The profile stored for one account.
///
/// Two records are equal when name, age and job are; records are ordered by
/// name, then age, then job.
#[derive(Debug, Eq, Ord, Hash)]
pub struct Person {
    pub name: Name,
    pub age: Age,
    pub job: Job,
}

impl View for Person {
    type V = PersonView;

    open spec fn view(&self) -> PersonView {
        PersonView { name: self.name@, age: self.age, job: self.job }
    }
}

impl Clone for Person {
    fn clone(&self) -> (person: Person)
        ensures
            person@ == self@,
    {
        Person { name: self.name.clone(), age: self.age, job: self.job }
    }
}

impl PartialEq for Person {
    fn eq(&self, other: &Person) -> (r: bool) {
        self.name == other.name && self.age == other.age && self.job == other.job
    }
}

impl vstd::std_specs::cmp::PartialEqSpecImpl for Person {
    open spec fn obeys_eq_spec() -> bool {
        true
    }

    open spec fn eq_spec(&self, other: &Person) -> bool {
        self@ == other@
    }
}

impl PartialOrd for Person {
    fn partial_cmp(&self, other: &Person) -> (r: Option<Ordering>) {
        proof {
            lemma_bytes_lt_total(self.name@, other.name@);
            if bytes_lt(self.name@, other.name@) {
                lemma_bytes_lt_asymmetric(self.name@, other.name@);
            }
            if bytes_lt(other.name@, self.name@) {
                lemma_bytes_lt_asymmetric(other.name@, self.name@);
            }
        }
        match self.name.partial_cmp(&other.name) {
            Some(Ordering::Less) => Some(Ordering::Less),
            Some(Ordering::Greater) => Some(Ordering::Greater),
            _ => {
                if self.age < other.age {
                    Some(Ordering::Less)
                } else if self.age > other.age {
                    Some(Ordering::Greater)
                } else {
                    self.job.partial_cmp(&other.job)
                }
            },
        }
    }
}

impl vstd::std_specs::cmp::PartialOrdSpecImpl for Person {
    open spec fn obeys_partial_cmp_spec() -> bool {
        true
    }

    open spec fn partial_cmp_spec(&self, other: &Person) -> Option<Ordering> {
        Some(person_order(self@, other@))
    }
}

} // verus!
