//! What holds of every registry, whatever was asked of it.
//!
//! The statements are about [`RegistryView`], the value that the contracts
//! of [`crate::pallet::Pallet`] speak of: `outcome` is what `add_registry`
//! returns, `register` the state it leaves, `lookup` what `people_registry`
//! finds.

use vstd::prelude::*;
use crate::error::Error;
use crate::event::{AccountId, Event};
use crate::name::name_fits;
use crate::pallet::RegistryView;
use crate::person::{age_in_range, Age, Job, PersonView};

verus! {

/// An account registers once: the first registration with an age and a name
/// within the limits is accepted, every later one is rejected with
/// `AlreadyExistsInRegistry`, whatever it asks for, and the record of the
/// first stays.
pub proof fn law_second_registration_rejected(
    state: RegistryView,
    signer: AccountId,
    name: Seq<u8>,
    age: Age,
    job: Job,
    later_name: Seq<u8>,
    later_age: Age,
    later_job: Job,
)
    requires
        !state.people.contains_key(signer),
        age_in_range(age, state.config.max_age_of_person),
        name_fits(name, state.config.max_name_length_bytes),
    ensures
        state.outcome(signer, name, age) == Ok::<(), Error>(()),
        state.register(signer, name, age, job).outcome(signer, later_name, later_age) == Err::<
            (),
            Error,
        >(Error::AlreadyExistsInRegistry),
        state.register(signer, name, age, job).register(
            signer,
            later_name,
            later_age,
            later_job,
        ).lookup(signer) == Some(PersonView { name, age, job }),
{
}

/// The age limit is exclusive: with a name within its limit, an account
/// without a record is accepted at one year below the limit and rejected
/// with `MaxAgeExceeded` at the limit itself.
pub proof fn law_age_boundary(state: RegistryView, signer: AccountId, name: Seq<u8>)
    requires
        !state.people.contains_key(signer),
        name_fits(name, state.config.max_name_length_bytes),
    ensures
        state.config.max_age_of_person > 0 ==> state.outcome(
            signer,
            name,
            (state.config.max_age_of_person - 1) as Age,
        ) == Ok::<(), Error>(()),
        state.outcome(signer, name, state.config.max_age_of_person) == Err::<(), Error>(
            Error::MaxAgeExceeded,
        ),
{
}

/// The length limit is inclusive: with an age below its limit, an account
/// without a record is accepted with a name of exactly as many bytes as the
/// limit, and rejected with `NameTooLong` with one byte more.
pub proof fn law_name_boundary(
    state: RegistryView,
    signer: AccountId,
    name: Seq<u8>,
    longer: Seq<u8>,
    age: Age,
)
    requires
        !state.people.contains_key(signer),
        age_in_range(age, state.config.max_age_of_person),
        name.len() == state.config.max_name_length_bytes,
        longer.len() == state.config.max_name_length_bytes + 1,
    ensures
        state.outcome(signer, name, age) == Ok::<(), Error>(()),
        state.outcome(signer, longer, age) == Err::<(), Error>(Error::NameTooLong),
{
}

/// A rejected registration changes nothing: the state is the one before,
/// so every account is looked up as before and no event is given out.
pub proof fn law_rejection_changes_nothing(
    state: RegistryView,
    signer: AccountId,
    name: Seq<u8>,
    age: Age,
    job: Job,
    account_id: AccountId,
)
    requires
        state.outcome(signer, name, age) is Err,
    ensures
        state.register(signer, name, age, job) == state,
        state.register(signer, name, age, job).lookup(account_id) == state.lookup(account_id),
        state.register(signer, name, age, job).events == state.events,
{
}

/// An accepted registration is found again: the account is then looked up
/// as exactly the name, age and job it registered with, and the event that
/// names it is the last one given out.
pub proof fn law_registration_round_trip(
    state: RegistryView,
    signer: AccountId,
    name: Seq<u8>,
    age: Age,
    job: Job,
)
    requires
        state.outcome(signer, name, age) is Ok,
    ensures
        state.register(signer, name, age, job).lookup(signer) == Some(
            PersonView { name, age, job },
        ),
        state.register(signer, name, age, job).events == state.events.push(
            Event::PersonAdded { account_id: signer, age },
        ),
{
}

/// Records are never changed or removed: whatever is asked, an account that
/// had a record is looked up as before.
pub proof fn law_records_are_kept(
    state: RegistryView,
    signer: AccountId,
    name: Seq<u8>,
    age: Age,
    job: Job,
    account_id: AccountId,
)
    requires
        state.people.contains_key(account_id),
    ensures
        state.register(signer, name, age, job).lookup(account_id) == state.lookup(account_id),
{
}

/// A registration touches one account only: every other account is looked
/// up as before.
pub proof fn law_other_accounts_untouched(
    state: RegistryView,
    signer: AccountId,
    name: Seq<u8>,
    age: Age,
    job: Job,
    account_id: AccountId,
)
    requires
        account_id != signer,
    ensures
        state.register(signer, name, age, job).lookup(account_id) == state.lookup(account_id),
{
}

/// Stored records respect the limits at all times: the empty registry does,
/// and a registration keeps it so.
pub proof fn law_limits_hold_at_rest(
    state: RegistryView,
    signer: AccountId,
    name: Seq<u8>,
    age: Age,
    job: Job,
)
    requires
        state.wf(),
    ensures
        RegistryView::empty(state.config).wf(),
        state.register(signer, name, age, job).wf(),
{
}

} // verus!
