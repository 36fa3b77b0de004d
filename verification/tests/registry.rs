use people_registry::{
    check_registration, validate_name, Age, Config, Error, Event, Job, Name, Pallet, Person,
};

const MAX_NAME_LENGTH_BYTES: u32 = 8;
const MAX_AGE_OF_PERSON: u32 = 35;

fn new_registry() -> Pallet {
    Pallet::new(Config::new(MAX_NAME_LENGTH_BYTES, MAX_AGE_OF_PERSON))
}

fn name_of(bytes: &[u8]) -> Name {
    validate_name(bytes.to_vec(), MAX_NAME_LENGTH_BYTES).expect("within the limit")
}

#[test]
fn add_person_to_registry() {
    let mut registry = new_registry();
    let name: Name = Name::default();
    let age: Age = 34u32.into();
    let job: Job = Job::Programmer;
    assert_eq!(registry.add_registry(1, name.clone().into_inner(), age, job.clone()), Ok(()));
    let expected_person: Person = registry.people_registry(1).expect("Was added to Registry");
    assert_eq!(expected_person, Person { name, age, job });
}

#[test]
fn add_person_to_old_to_registry() {
    let mut registry = new_registry();
    let name: Name = validate_name("Andrew".as_bytes().to_vec(), MAX_NAME_LENGTH_BYTES)
        .expect("Can Convert this Name to Bounded Vec");
    assert_eq!(
        registry.add_registry(1, name.into_inner(), 35u32, Job::Programmer),
        Err(Error::MaxAgeExceeded)
    );
    assert_eq!(registry.people_registry(1), None);
    assert!(registry.events().is_empty());
}

#[test]
fn new_registry_is_empty() {
    let registry = new_registry();
    assert_eq!(registry.config(), Config::new(MAX_NAME_LENGTH_BYTES, MAX_AGE_OF_PERSON));
    assert_eq!(registry.people_registry(1), None);
    assert!(!registry.is_registered(1));
    assert!(registry.events().is_empty());
}

#[test]
fn second_registration_is_rejected() {
    let mut registry = new_registry();
    assert_eq!(registry.add_registry(7, b"Ada".to_vec(), 30, Job::Programmer), Ok(()));
    assert_eq!(
        registry.add_registry(7, b"Grace".to_vec(), 20, Job::Artist),
        Err(Error::AlreadyExistsInRegistry)
    );
    assert_eq!(
        registry.people_registry(7),
        Some(Person { name: name_of(b"Ada"), age: 30, job: Job::Programmer })
    );
    assert_eq!(registry.events().len(), 1);
}

#[test]
fn duplicate_is_reported_before_the_fields() {
    let mut registry = new_registry();
    assert_eq!(registry.add_registry(1, Vec::new(), 34, Job::Programmer), Ok(()));
    assert_eq!(
        registry.add_registry(1, b"Andrew".to_vec(), 35, Job::Programmer),
        Err(Error::AlreadyExistsInRegistry)
    );
    assert_eq!(
        registry.add_registry(1, b"much too long".to_vec(), 99, Job::Artist),
        Err(Error::AlreadyExistsInRegistry)
    );
}

#[test]
fn age_is_checked_before_the_name() {
    let mut registry = new_registry();
    assert_eq!(
        registry.add_registry(1, b"much too long".to_vec(), 35, Job::Artist),
        Err(Error::MaxAgeExceeded)
    );
    assert_eq!(
        registry.add_registry(1, b"much too long".to_vec(), 34, Job::Artist),
        Err(Error::NameTooLong)
    );
}

#[test]
fn age_boundary() {
    let mut registry = new_registry();
    assert_eq!(
        registry.add_registry(1, b"Ada".to_vec(), MAX_AGE_OF_PERSON - 1, Job::Artist),
        Ok(())
    );
    assert_eq!(
        registry.add_registry(2, b"Ada".to_vec(), MAX_AGE_OF_PERSON, Job::Artist),
        Err(Error::MaxAgeExceeded)
    );
    assert_eq!(
        registry.add_registry(3, b"Ada".to_vec(), u32::MAX, Job::Artist),
        Err(Error::MaxAgeExceeded)
    );
    assert_eq!(registry.add_registry(4, b"Ada".to_vec(), 0, Job::Artist), Ok(()));
}

#[test]
fn age_limit_of_zero_admits_nobody() {
    let mut registry = Pallet::new(Config::new(MAX_NAME_LENGTH_BYTES, 0));
    assert_eq!(
        registry.add_registry(1, Vec::new(), 0, Job::Programmer),
        Err(Error::MaxAgeExceeded)
    );
}

#[test]
fn name_boundary() {
    let mut registry = new_registry();
    let exact = vec![b'a'; MAX_NAME_LENGTH_BYTES as usize];
    let longer = vec![b'a'; MAX_NAME_LENGTH_BYTES as usize + 1];
    assert_eq!(registry.add_registry(1, exact.clone(), 20, Job::Programmer), Ok(()));
    assert_eq!(
        registry.add_registry(2, longer, 20, Job::Programmer),
        Err(Error::NameTooLong)
    );
    let stored = registry.people_registry(1).expect("registered");
    assert_eq!(stored.name.as_slice(), exact.as_slice());
    assert_eq!(registry.people_registry(2), None);
}

#[test]
fn name_limit_of_zero_admits_the_empty_name() {
    let mut registry = Pallet::new(Config::new(0, MAX_AGE_OF_PERSON));
    assert_eq!(registry.add_registry(1, vec![b'a'], 20, Job::Programmer), Err(Error::NameTooLong));
    assert_eq!(registry.add_registry(1, Vec::new(), 20, Job::Programmer), Ok(()));
}

#[test]
fn rejection_changes_nothing() {
    let mut registry = new_registry();
    assert_eq!(registry.add_registry(1, b"Ada".to_vec(), 30, Job::Programmer), Ok(()));
    let before_one = registry.people_registry(1);
    let before_two = registry.people_registry(2);
    let events_before = registry.events().clone();

    assert_eq!(
        registry.add_registry(1, b"Bob".to_vec(), 31, Job::Artist),
        Err(Error::AlreadyExistsInRegistry)
    );
    assert_eq!(
        registry.add_registry(2, b"Bob".to_vec(), 35, Job::Artist),
        Err(Error::MaxAgeExceeded)
    );
    assert_eq!(
        registry.add_registry(2, b"Bartholomew".to_vec(), 31, Job::Artist),
        Err(Error::NameTooLong)
    );

    assert_eq!(registry.people_registry(1), before_one);
    assert_eq!(registry.people_registry(2), before_two);
    assert_eq!(registry.events(), &events_before);
}

#[test]
fn registration_round_trip() {
    let mut registry = new_registry();
    assert_eq!(registry.add_registry(42, b"Grace".to_vec(), 33, Job::Artist), Ok(()));
    assert_eq!(
        registry.people_registry(42),
        Some(Person { name: name_of(b"Grace"), age: 33, job: Job::Artist })
    );
    assert!(registry.is_registered(42));
    assert!(!registry.is_registered(43));
}

#[test]
fn registrations_do_not_disturb_each_other() {
    let mut registry = new_registry();
    assert_eq!(registry.add_registry(1, b"Ada".to_vec(), 30, Job::Programmer), Ok(()));
    assert_eq!(registry.add_registry(2, b"Bob".to_vec(), 31, Job::Artist), Ok(()));
    assert_eq!(
        registry.people_registry(1),
        Some(Person { name: name_of(b"Ada"), age: 30, job: Job::Programmer })
    );
    assert_eq!(
        registry.people_registry(2),
        Some(Person { name: name_of(b"Bob"), age: 31, job: Job::Artist })
    );
    assert_eq!(registry.people_registry(3), None);
}

#[test]
fn events_follow_accepted_registrations() {
    let mut registry = new_registry();
    assert_eq!(registry.add_registry(5, b"Ada".to_vec(), 30, Job::Programmer), Ok(()));
    assert_eq!(
        registry.add_registry(6, b"Bob".to_vec(), 40, Job::Artist),
        Err(Error::MaxAgeExceeded)
    );
    assert_eq!(registry.add_registry(6, b"Bob".to_vec(), 12, Job::Artist), Ok(()));
    assert_eq!(
        registry.events(),
        &vec![
            Event::PersonAdded { account_id: 5, age: 30 },
            Event::PersonAdded { account_id: 6, age: 12 },
        ]
    );
}

#[test]
fn scenario_with_age_limit_thirty_five() {
    let mut registry = Pallet::new(Config::new(MAX_NAME_LENGTH_BYTES, 35));
    assert_eq!(registry.add_registry(1, Vec::new(), 34, Job::Programmer), Ok(()));
    assert_eq!(
        registry.people_registry(1),
        Some(Person { name: Name::default(), age: 34, job: Job::Programmer })
    );
    assert_eq!(
        registry.add_registry(2, b"Andrew".to_vec(), 35, Job::Programmer),
        Err(Error::MaxAgeExceeded)
    );

    let mut fresh = Pallet::new(Config::new(MAX_NAME_LENGTH_BYTES, 35));
    assert_eq!(
        fresh.add_registry(1, b"Andrew".to_vec(), 35, Job::Programmer),
        Err(Error::MaxAgeExceeded)
    );
}

#[test]
fn check_registration_decides_in_order() {
    let config = Config::new(3, 18);
    assert_eq!(
        check_registration(&config, false, b"Ada".to_vec(), 17, Job::Artist),
        Ok(Person { name: name_of(b"Ada"), age: 17, job: Job::Artist })
    );
    assert_eq!(
        check_registration(&config, true, b"Ada".to_vec(), 17, Job::Artist),
        Err(Error::AlreadyExistsInRegistry)
    );
    assert_eq!(
        check_registration(&config, true, b"Adam".to_vec(), 18, Job::Artist),
        Err(Error::AlreadyExistsInRegistry)
    );
    assert_eq!(
        check_registration(&config, false, b"Adam".to_vec(), 18, Job::Artist),
        Err(Error::MaxAgeExceeded)
    );
    assert_eq!(
        check_registration(&config, false, b"Adam".to_vec(), 17, Job::Artist),
        Err(Error::NameTooLong)
    );
}
