use kitties::{baby_dna, gender_of, random_dna, AccountId, Error, Event, Gender, Kitty, Module};

const ALICE: AccountId = [1u8; 32];
const BOB: AccountId = [2u8; 32];

/// A seed from which ALICE, at call index 0, gets a female kitty.
const FEMALE_SEED: [u8; 32] = [0u8; 32];
/// Another such seed.
const OTHER_FEMALE_SEED: [u8; 32] = [1u8; 32];
/// A seed from which ALICE, at call index 0, gets a male kitty.
const MALE_SEED: [u8; 32] = [4u8; 32];

fn created(event: Event) -> (AccountId, u32, Kitty<AccountId>) {
    match event {
        Event::KittyCreated(who, id, kitty) => (who, id, kitty),
        Event::CreateKittyBaby(..) => panic!("expected KittyCreated"),
    }
}

fn bred(event: Event) -> (AccountId, u32, Kitty<AccountId>) {
    match event {
        Event::CreateKittyBaby(who, id, kitty) => (who, id, kitty),
        Event::KittyCreated(..) => panic!("expected CreateKittyBaby"),
    }
}

/// ALICE owns kitty 0 (female) and kitty 1 (male).
fn module_with_a_pair() -> Module {
    let mut module = Module::new();
    let (_, id, kitty) = created(module.create(ALICE, &FEMALE_SEED, Some(0)).unwrap());
    assert_eq!(id, 0);
    assert_eq!(kitty.gender(), Some(Gender::Female));
    let (_, id, kitty) = created(module.create(ALICE, &MALE_SEED, Some(0)).unwrap());
    assert_eq!(id, 1);
    assert_eq!(kitty.gender(), Some(Gender::Male));
    module
}

/// ALICE owns kitty 0 and kitty 1, both female.
fn module_with_two_females() -> Module {
    let mut module = Module::new();
    let (_, _, kitty) = created(module.create(ALICE, &FEMALE_SEED, Some(0)).unwrap());
    assert_eq!(kitty.gender(), Some(Gender::Female));
    let (_, _, kitty) = created(module.create(ALICE, &OTHER_FEMALE_SEED, Some(0)).unwrap());
    assert_eq!(kitty.gender(), Some(Gender::Female));
    module
}

fn snapshot(module: &Module) -> (u32, Vec<Option<Kitty<AccountId>>>, Vec<Option<AccountId>>) {
    let next = module.next_kitty_id();
    let upto = next + 3;
    (
        next,
        (0..upto).map(|id| module.get_kitty_by_id(id)).collect(),
        (0..upto).map(|id| module.get_owner_by_kitty_id(id)).collect(),
    )
}

#[test]
fn new_module_is_empty() {
    let module = Module::new();
    assert_eq!(module.next_kitty_id(), 0);
    assert_eq!(module.get_kitty_by_id(0), None);
    assert_eq!(module.get_owner_by_kitty_id(0), None);
    assert_eq!(module.get_kitty_by_owner_and_id(&ALICE, 0), None);
}

#[test]
fn first_create_gets_id_zero() {
    let mut module = Module::new();
    let event = module.create(ALICE, &FEMALE_SEED, Some(0)).unwrap();
    let (who, id, kitty) = created(event);
    assert_eq!(who, ALICE);
    assert_eq!(id, 0);
    assert_eq!(*kitty.owner(), ALICE);
    assert_eq!(kitty.dna(), random_dna(&FEMALE_SEED, &ALICE, Some(0)));
    assert_eq!(
        kitty.dna(),
        [153, 70, 134, 170, 186, 69, 168, 117, 171, 187, 183, 125, 14, 65, 242, 186]
    );
    assert_eq!(kitty.gender(), Some(gender_of(&kitty.dna())));
    assert_eq!(kitty.gender(), Some(Gender::Female));
    assert_eq!(module.next_kitty_id(), 1);
    assert_eq!(module.get_kitty_by_id(0), Some(kitty));
}

#[test]
fn breed_of_a_pair_gets_the_next_id() {
    let mut module = module_with_a_pair();
    let mother = module.get_kitty_by_id(0).unwrap();
    let father = module.get_kitty_by_id(1).unwrap();
    let event = module.create_kitty_baby(ALICE, 0, 1).unwrap();
    let (who, id, baby) = bred(event);
    assert_eq!(who, ALICE);
    assert_eq!(id, 2);
    assert_eq!(*baby.owner(), ALICE);
    assert_eq!(baby.dna(), baby_dna(&mother.dna(), &father.dna(), 2));
    assert_eq!(
        baby.dna(),
        [72, 99, 119, 143, 128, 125, 122, 201, 25, 99, 68, 98, 55, 25, 31, 191]
    );
    assert_eq!(baby.gender(), Some(Gender::Male));
    assert_eq!(module.next_kitty_id(), 3);
    assert_eq!(module.get_kitty_by_id(2), Some(baby));
    assert_eq!(module.get_owner_by_kitty_id(2), Some(ALICE));
    // The parents are kept as they were.
    assert_eq!(module.get_kitty_by_id(0), Some(mother));
    assert_eq!(module.get_kitty_by_id(1), Some(father));
}

#[test]
fn breed_of_same_gender_is_refused() {
    let mut module = module_with_two_females();
    assert_eq!(module.next_kitty_id(), 2);
    assert_eq!(module.create_kitty_baby(ALICE, 0, 1), Err(Error::KittyGenderCanNotBeSame));
    assert_eq!(module.next_kitty_id(), 2);
    assert_eq!(module.get_kitty_by_id(2), None);
}

#[test]
fn breed_of_a_kitty_with_itself_is_refused() {
    let mut module = module_with_a_pair();
    assert_eq!(module.create_kitty_baby(ALICE, 1, 1), Err(Error::KittyGenderCanNotBeSame));
    assert_eq!(module.next_kitty_id(), 2);
}

#[test]
fn breed_of_an_unknown_kitty_is_refused() {
    let mut module = module_with_a_pair();
    assert_eq!(module.create_kitty_baby(ALICE, 99, 1), Err(Error::KittiesNonExistent));
    assert_eq!(module.create_kitty_baby(ALICE, 0, 99), Err(Error::KittiesNonExistent));
    assert_eq!(module.create_kitty_baby(ALICE, 98, 99), Err(Error::KittiesNonExistent));
    assert_eq!(module.next_kitty_id(), 2);
}

#[test]
fn breed_by_a_stranger_is_refused() {
    let mut module = module_with_a_pair();
    assert_eq!(module.create_kitty_baby(BOB, 0, 1), Err(Error::KittyParentError));
    assert_eq!(module.next_kitty_id(), 2);
}

#[test]
fn breed_with_one_foreign_parent_is_refused() {
    let mut module = module_with_a_pair();
    let (_, id, _) = created(module.create(BOB, &MALE_SEED, Some(3)).unwrap());
    assert_eq!(id, 2);
    assert_eq!(module.create_kitty_baby(ALICE, 0, 2), Err(Error::KittyParentError));
    assert_eq!(module.create_kitty_baby(ALICE, 2, 0), Err(Error::KittyParentError));
    assert_eq!(module.create_kitty_baby(BOB, 2, 1), Err(Error::KittyParentError));
    assert_eq!(module.next_kitty_id(), 3);
}

#[test]
fn existence_is_checked_before_ownership() {
    let mut module = module_with_a_pair();
    // BOB owns neither parent, and one of them does not exist.
    assert_eq!(module.create_kitty_baby(BOB, 0, 99), Err(Error::KittiesNonExistent));
    assert_eq!(module.create_kitty_baby(BOB, 99, 0), Err(Error::KittiesNonExistent));
}

#[test]
fn ownership_is_checked_before_gender() {
    let mut module = module_with_two_females();
    // BOB owns neither parent, and they have the same gender.
    assert_eq!(module.create_kitty_baby(BOB, 0, 1), Err(Error::KittyParentError));
}

#[test]
fn refused_breed_changes_nothing() {
    let mut module = module_with_a_pair();
    let (_, _, _) = created(module.create(ALICE, &OTHER_FEMALE_SEED, Some(0)).unwrap());
    let before = snapshot(&module);
    assert_eq!(module.create_kitty_baby(ALICE, 99, 1), Err(Error::KittiesNonExistent));
    assert_eq!(snapshot(&module), before);
    assert_eq!(module.create_kitty_baby(BOB, 0, 1), Err(Error::KittyParentError));
    assert_eq!(snapshot(&module), before);
    assert_eq!(module.create_kitty_baby(ALICE, 0, 2), Err(Error::KittyGenderCanNotBeSame));
    assert_eq!(snapshot(&module), before);
    // The next successful call still gets the identifier that was next.
    let (_, id, _) = bred(module.create_kitty_baby(ALICE, 0, 1).unwrap());
    assert_eq!(id, before.0);
}

#[test]
fn identifiers_are_consecutive_and_unique() {
    let mut module = Module::new();
    let mut issued = Vec::new();
    for round in 0..20u8 {
        let sender = if round % 3 == 0 { BOB } else { ALICE };
        let (_, id, _) = created(module.create(sender, &[round; 32], Some(round as u32)).unwrap());
        issued.push(id);
        // A refused call in between takes no identifier.
        assert_eq!(module.create_kitty_baby(sender, id, 1000), Err(Error::KittiesNonExistent));
    }
    assert_eq!(issued, (0..20u32).collect::<Vec<u32>>());
    for pair in issued.windows(2) {
        assert!(pair[0] < pair[1]);
        assert_eq!(pair[0] + 1, pair[1]);
    }
    assert_eq!(module.next_kitty_id(), 20);
}

#[test]
fn owners_share_one_counter() {
    let mut module = Module::new();
    let (_, a, _) = created(module.create(ALICE, &FEMALE_SEED, Some(0)).unwrap());
    let (_, b, _) = created(module.create(BOB, &FEMALE_SEED, Some(0)).unwrap());
    let (_, c, _) = created(module.create(ALICE, &FEMALE_SEED, Some(1)).unwrap());
    assert_eq!((a, b, c), (0, 1, 2));
}

#[test]
fn new_kitty_belongs_to_the_caller() {
    let mut module = Module::new();
    let (who, id, kitty) = created(module.create(BOB, &MALE_SEED, None).unwrap());
    assert_eq!(who, BOB);
    assert_eq!(module.get_owner_by_kitty_id(id), Some(BOB));
    assert_eq!(module.get_kitty_by_owner_and_id(&BOB, id), Some(kitty));
    assert_eq!(module.get_kitty_by_owner_and_id(&ALICE, id), None);

    let mut module = module_with_a_pair();
    let (who, id, baby) = bred(module.create_kitty_baby(ALICE, 1, 0).unwrap());
    assert_eq!(who, ALICE);
    assert_eq!(module.get_owner_by_kitty_id(id), Some(ALICE));
    assert_eq!(module.get_kitty_by_owner_and_id(&ALICE, id), Some(baby));
    assert_eq!(module.get_kitty_by_owner_and_id(&BOB, id), None);
    // With the parents the other way round the child has another DNA.
    assert_eq!(
        baby.dna(),
        [21, 16, 87, 186, 91, 26, 212, 71, 205, 31, 222, 63, 206, 249, 147, 171]
    );
}

#[test]
fn two_children_of_the_same_parents_differ() {
    let mut module = module_with_a_pair();
    let (_, first_id, first) = bred(module.create_kitty_baby(ALICE, 0, 1).unwrap());
    let (_, second_id, second) = bred(module.create_kitty_baby(ALICE, 0, 1).unwrap());
    assert_eq!((first_id, second_id), (2, 3));
    assert_ne!(first.dna(), second.dna());
    assert_eq!(
        second.dna(),
        [238, 166, 5, 241, 102, 225, 50, 198, 52, 71, 3, 4, 209, 77, 205, 60]
    );
}

#[test]
fn make_kitty_stores_the_kitty_under_the_next_id() {
    let mut module = Module::new();
    let mut dna = [0u8; 16];
    dna[2] = 7;
    let kitty = module.make_kitty(&ALICE, dna).unwrap();
    assert_eq!(kitty, Kitty::new(ALICE, dna));
    assert_eq!(kitty.gender(), Some(Gender::Male));
    assert_eq!(module.next_kitty_id(), 1);
    assert_eq!(module.get_kitty_by_id(0), Some(kitty));
    assert_eq!(module.get_owner_by_kitty_id(0), Some(ALICE));
    let other = module.make_kitty(&BOB, [0u8; 16]).unwrap();
    assert_eq!(other.gender(), Some(Gender::Female));
    assert_eq!(module.next_kitty_id(), 2);
    assert_eq!(module.get_kitty_by_id(1), Some(other));
    assert_eq!(module.get_owner_by_kitty_id(1), Some(BOB));
    assert_eq!(module.get_kitty_by_id(0), Some(kitty));
}

#[test]
fn same_entropy_gives_the_same_kitty() {
    let mut first = Module::new();
    let mut second = Module::new();
    let a = first.create(ALICE, &[9u8; 32], Some(4)).unwrap();
    let b = second.create(ALICE, &[9u8; 32], Some(4)).unwrap();
    assert_eq!(a, b);
}

#[test]
fn restore_rebuilds_the_state() {
    let mut module = module_with_a_pair();
    let (_, _, baby) = bred(module.create_kitty_baby(ALICE, 0, 1).unwrap());
    let kitties: Vec<Kitty<AccountId>> =
        (0..3).map(|id| module.get_kitty_by_id(id).unwrap()).collect();
    let mut restored = Module::restore(&kitties).unwrap();
    assert_eq!(snapshot(&restored), snapshot(&module));
    assert_eq!(restored.get_kitty_by_id(2), Some(baby));
    // Both go on in the same way.
    assert_eq!(
        restored.create_kitty_baby(ALICE, 0, 1),
        module.create_kitty_baby(ALICE, 0, 1)
    );
    assert_eq!(restored.next_kitty_id(), 4);
}

#[test]
fn restore_of_nothing_is_the_empty_state() {
    let restored = Module::restore(&Vec::new()).unwrap();
    assert_eq!(restored.next_kitty_id(), 0);
    assert_eq!(restored.get_kitty_by_id(0), None);
}
