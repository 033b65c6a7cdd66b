//! The two calls that change the registry, `create` and `create_kitty_baby`,
//! and the state they act on.

use crate::allocator::NextKittyId;
use crate::dna::{baby_dna, random_dna, spec_baby_dna, spec_random_dna, AccountId};
use crate::error::Error;
use crate::kitty::Kitty;
use crate::registry::{same_account, Kitties};
use vstd::prelude::*;

verus! {

/// What a successful call announces: who called, the new kitty's
/// identifier, and the new kitty.
#[derive(Clone, Copy, Debug, PartialEq, Eq)]
pub enum Event {
    /// A kitty was created from fresh entropy.
    KittyCreated(AccountId, u32, Kitty<AccountId>),
    /// A kitty was bred from two parents.
    CreateKittyBaby(AccountId, u32, Kitty<AccountId>),
}

impl Event {
    /// Who the event names as the caller.
    pub open spec fn who(self) -> AccountId {
        match self {
            Event::KittyCreated(who, _, _) => who,
            Event::CreateKittyBaby(who, _, _) => who,
        }
    }

    /// The identifier of the new kitty.
    pub open spec fn kitty_id(self) -> u32 {
        match self {
            Event::KittyCreated(_, id, _) => id,
            Event::CreateKittyBaby(_, id, _) => id,
        }
    }

    /// The new kitty.
    pub open spec fn kitty(self) -> Kitty<AccountId> {
        match self {
            Event::KittyCreated(_, _, kitty) => kitty,
            Event::CreateKittyBaby(_, _, kitty) => kitty,
        }
    }
}

/// The whole state, as contracts see it.
pub struct State {
    /// The stored kitties, by identifier.
    pub kitties: Map<u32, Kitty<AccountId>>,
    /// The index from identifier to owner.
    pub owners: Map<u32, AccountId>,
    /// The identifier that the next kitty gets.
    pub next_kitty_id: u32,
}

impl State {
    /// The state before any call.
    pub open spec fn empty() -> State {
        State { kitties: Map::empty(), owners: Map::empty(), next_kitty_id: 0 }
    }

    /// The identifiers in use are exactly those below the counter, the index
    /// names each kitty's owner, and every kitty is well formed.
    pub open spec fn wf(self) -> bool {
        &&& forall|id: u32| #[trigger] self.kitties.contains_key(id) <==> id < self.next_kitty_id
        &&& self.owners.dom() == self.kitties.dom()
        &&& forall|id: u32| #[trigger]
            self.kitties.contains_key(id) ==> self.owners[id] == self.kitties[id].spec_owner()
        &&& forall|id: u32| #[trigger] self.kitties.contains_key(id) ==> self.kitties[id].wf()
    }

    /// The kitty stored under `id`, if any.
    pub open spec fn get(self, id: u32) -> Option<Kitty<AccountId>> {
        if self.kitties.contains_key(id) {
            Some(self.kitties[id])
        } else {
            None
        }
    }

    /// The kitty stored under `id`, if there is one and `owner` owns it.
    pub open spec fn get_by_owner_and_id(self, owner: AccountId, id: u32) -> Option<
        Kitty<AccountId>,
    > {
        if self.kitties.contains_key(id) && self.kitties[id].spec_owner() == owner {
            Some(self.kitties[id])
        } else {
            None
        }
    }

    /// The owner that the index names for `id`, if any.
    pub open spec fn owner_of(self, id: u32) -> Option<AccountId> {
        if self.owners.contains_key(id) {
            Some(self.owners[id])
        } else {
            None
        }
    }
}

/// The DNA whose bytes are `bytes`.
pub open spec fn dna_from_bytes(bytes: Seq<u8>) -> [u8; 16] {
    choose|dna: [u8; 16]| dna@ == bytes
}

/// What `make_kitty` does to a state and what it returns.
pub open spec fn spec_make_kitty(s: State, owner: AccountId, dna: [u8; 16]) -> (
    State,
    Result<Kitty<AccountId>, Error>,
) {
    let id = s.next_kitty_id;
    if !NextKittyId::spec_has_next(id) {
        (s, Err(Error::KittiesIdOverflow))
    } else if s.kitties.contains_key(id) {
        (s, Err(Error::KittiesIdOccupied))
    } else {
        let kitty = Kitty::spec_new(owner, dna);
        (
            State {
                kitties: s.kitties.insert(id, kitty),
                owners: s.owners.insert(id, owner),
                next_kitty_id: (id + 1) as u32,
            },
            Ok(kitty),
        )
    }
}

/// What creating a kitty with the given DNA does to a state and what it
/// announces.
pub open spec fn spec_create_with_dna(s: State, sender: AccountId, dna: [u8; 16]) -> (
    State,
    Result<Event, Error>,
) {
    let (after, made) = spec_make_kitty(s, sender, dna);
    (
        after,
        match made {
            Ok(kitty) => Ok(Event::KittyCreated(sender, s.next_kitty_id, kitty)),
            Err(e) => Err(e),
        },
    )
}

/// What `create` does to a state and what it announces.
pub open spec fn spec_create(
    s: State,
    sender: AccountId,
    seed: Seq<u8>,
    extrinsic_index: Option<u32>,
) -> (State, Result<Event, Error>) {
    spec_create_with_dna(s, sender, dna_from_bytes(spec_random_dna(seed, sender@, extrinsic_index)))
}

/// The first reason, if any, for which `sender` may not breed the kitties
/// `kitty_a_id` and `kitty_b_id`: a parent that does not exist, then a
/// parent that `sender` does not own, then parents of the same gender.
pub open spec fn spec_breed_refusal(
    s: State,
    sender: AccountId,
    kitty_a_id: u32,
    kitty_b_id: u32,
) -> Option<Error> {
    if !s.kitties.contains_key(kitty_a_id) || !s.kitties.contains_key(kitty_b_id) {
        Some(Error::KittiesNonExistent)
    } else if s.kitties[kitty_a_id].spec_owner() != sender || s.kitties[kitty_b_id].spec_owner()
        != sender {
        Some(Error::KittyParentError)
    } else if s.kitties[kitty_a_id].spec_gender() == s.kitties[kitty_b_id].spec_gender() {
        Some(Error::KittyGenderCanNotBeSame)
    } else {
        None
    }
}

/// What breeding a kitty with the given DNA does to a state and what it
/// announces, once the parents have passed validation.
pub open spec fn spec_breed_with_dna(s: State, sender: AccountId, dna: [u8; 16]) -> (
    State,
    Result<Event, Error>,
) {
    let (after, made) = spec_make_kitty(s, sender, dna);
    (
        after,
        match made {
            Ok(kitty) => Ok(Event::CreateKittyBaby(sender, s.next_kitty_id, kitty)),
            Err(e) => Err(e),
        },
    )
}

/// What `create_kitty_baby` does to a state and what it announces.
pub open spec fn spec_create_kitty_baby(
    s: State,
    sender: AccountId,
    kitty_a_id: u32,
    kitty_b_id: u32,
) -> (State, Result<Event, Error>) {
    match spec_breed_refusal(s, sender, kitty_a_id, kitty_b_id) {
        Some(e) => (s, Err(e)),
        None => spec_breed_with_dna(
            s,
            sender,
            dna_from_bytes(
                spec_baby_dna(
                    s.kitties[kitty_a_id].spec_dna()@,
                    s.kitties[kitty_b_id].spec_dna()@,
                    s.next_kitty_id,
                ),
            ),
        ),
    }
}

/// The DNA whose bytes are those of `dna` is `dna`.
pub proof fn lemma_dna_from_bytes(dna: [u8; 16])
    ensures
        dna_from_bytes(dna@) == dna,
{
    let chosen = dna_from_bytes(dna@);
    assert(chosen@ == dna@);
    assert(chosen =~= dna);
}

/// The kitties and the counter that gives out their identifiers.
pub struct Module {
    kitties: Kitties,
    next_kitty_id: NextKittyId,
}

impl Module {
    /// The state, as contracts see it.
    pub closed spec fn view(&self) -> State {
        State {
            kitties: self.kitties@,
            owners: self.kitties.owners(),
            next_kitty_id: self.next_kitty_id@,
        }
    }

    /// The state is well formed.
    pub closed spec fn wf(&self) -> bool {
        self.kitties.wf() && self@.wf()
    }

    /// In a well-formed module the state is well formed.
    pub proof fn lemma_wf(&self)
        requires
            self.wf(),
        ensures
            self@.wf(),
    {
    }

    /// A module without kitties, whose counter stands at 0.
    pub fn new() -> (module: Self)
        ensures
            module.wf(),
            module@ == State::empty(),
    {
        Module { kitties: Kitties::new(), next_kitty_id: NextKittyId::new() }
    }

    /// Builds the state in which the kitties of `kitties` are stored, each
    /// under its position in the list, and the counter stands one past the
    /// last. There is no such state when the list is longer than the
    /// identifiers reach.
    pub fn restore(kitties: &Vec<Kitty<AccountId>>) -> (restored: Option<Self>)
        requires
            forall|i: int| 0 <= i < kitties.len() ==> (#[trigger] kitties[i]).wf(),
        ensures
            restored is Some <==> kitties.len() <= u32::MAX,
            restored matches Some(module) ==> {
                &&& module.wf()
                &&& module@.next_kitty_id == kitties.len()
                &&& forall|id: u32|
                    id < kitties.len() ==> #[trigger] module@.kitties[id] == kitties[id as int]
            },
    {
        let mut module = Module::new();
        let mut i: usize = 0;
        while i < kitties.len()
            invariant
                i <= kitties.len(),
                module.wf(),
                module@.next_kitty_id == i,
                forall|id: u32| id < i ==> #[trigger] module@.kitties[id] == kitties[id as int],
                forall|j: int| 0 <= j < kitties.len() ==> (#[trigger] kitties[j]).wf(),
            decreases kitties.len() - i,
        {
            let kitty = kitties[i];
            proof {
                kitty.lemma_wf_is_new();
            }
            match module.make_kitty(kitty.owner(), kitty.dna()) {
                Ok(_) => {},
                Err(_) => {
                    return None;
                },
            }
            i = i + 1;
        }
        Some(module)
    }

    /// The identifier that the next kitty gets.
    pub fn next_kitty_id(&self) -> (next: u32)
        ensures
            next == self@.next_kitty_id,
    {
        self.next_kitty_id.peek()
    }

    /// The kitty stored under `kitty_id`, if any.
    pub fn get_kitty_by_id(&self, kitty_id: u32) -> (kitty: Option<Kitty<AccountId>>)
        ensures
            kitty == self@.get(kitty_id),
    {
        self.kitties.get(kitty_id)
    }

    /// The kitty stored under `kitty_id`, if there is one and `owner` owns
    /// it.
    pub fn get_kitty_by_owner_and_id(&self, owner: &AccountId, kitty_id: u32) -> (kitty: Option<
        Kitty<AccountId>,
    >)
        ensures
            kitty == self@.get_by_owner_and_id(*owner, kitty_id),
    {
        self.kitties.get_by_owner_and_id(owner, kitty_id)
    }

    /// Who owns the kitty `kitty_id`, by the index.
    pub fn get_owner_by_kitty_id(&self, kitty_id: u32) -> (owner: Option<AccountId>)
        ensures
            owner == self@.owner_of(kitty_id),
    {
        self.kitties.owner_of(kitty_id)
    }

    /// Gives `owner` a new kitty with the DNA `kitty_dna`: takes the next
    /// identifier, derives the gender, stores the kitty and moves the
    /// counter. When no identifier is left, nothing changes.
    pub fn make_kitty(&mut self, owner: &AccountId, kitty_dna: [u8; 16]) -> (result: Result<
        Kitty<AccountId>,
        Error,
    >)
        requires
            old(self).wf(),
        ensures
            final(self).wf(),
            (final(self)@, result) == spec_make_kitty(old(self)@, *owner, kitty_dna),
            result is Ok <==> old(self)@.next_kitty_id < u32::MAX,
            result is Err ==> final(self)@ == old(self)@,
    {
        let kitty_id = match self.next_kitty_id.next_id() {
            Ok(id) => id,
            Err(e) => {
                return Err(e);
            },
        };
        let new_kitty = Kitty::new(*owner, kitty_dna);
        match self.kitties.insert(kitty_id, new_kitty) {
            Ok(()) => {},
            Err(e) => {
                return Err(e);
            },
        }
        self.next_kitty_id.commit();
        Ok(new_kitty)
    }

    /// Creates a kitty for `sender` out of fresh entropy: its DNA is the hash
    /// of `seed`, the sender and `extrinsic_index`. When no identifier is
    /// left, nothing changes.
    pub fn create(&mut self, sender: AccountId, seed: &[u8; 32], extrinsic_index: Option<u32>) -> (
        result: Result<Event, Error>)
        requires
            old(self).wf(),
        ensures
            final(self).wf(),
            (final(self)@, result) == spec_create(old(self)@, sender, seed@, extrinsic_index),
            result is Ok <==> old(self)@.next_kitty_id < u32::MAX,
            result is Err ==> final(self)@ == old(self)@,
    {
        let kitty_id = match self.next_kitty_id.next_id() {
            Ok(id) => id,
            Err(e) => {
                return Err(e);
            },
        };
        let dna = random_dna(seed, &sender, extrinsic_index);
        proof {
            lemma_dna_from_bytes(dna);
        }
        match self.make_kitty(&sender, dna) {
            Ok(new_kitty) => Ok(Event::KittyCreated(sender, kitty_id, new_kitty)),
            Err(e) => Err(e),
        }
    }

    /// Breeds a kitty for `sender` from the parents `kitty_a_id` and
    /// `kitty_b_id`. Both must exist, then both must belong to `sender`, then
    /// their genders must differ, then an identifier must be left; the first
    /// of these that fails is the error, and nothing changes. The child's DNA
    /// is the hash of both parents' DNA and the child's identifier.
    pub fn create_kitty_baby(&mut self, sender: AccountId, kitty_a_id: u32, kitty_b_id: u32) -> (
        result: Result<Event, Error>)
        requires
            old(self).wf(),
        ensures
            final(self).wf(),
            (final(self)@, result) == spec_create_kitty_baby(
                old(self)@,
                sender,
                kitty_a_id,
                kitty_b_id,
            ),
            result is Err ==> final(self)@ == old(self)@,
            result is Ok <==> spec_breed_refusal(old(self)@, sender, kitty_a_id, kitty_b_id)
                is None && old(self)@.next_kitty_id < u32::MAX,
    {
        let kitty_a = match self.kitties.get(kitty_a_id) {
            Some(kitty) => kitty,
            None => {
                return Err(Error::KittiesNonExistent);
            },
        };
        let kitty_b = match self.kitties.get(kitty_b_id) {
            Some(kitty) => kitty,
            None => {
                return Err(Error::KittiesNonExistent);
            },
        };
        if !same_account(kitty_a.owner(), &sender) || !same_account(kitty_b.owner(), &sender) {
            return Err(Error::KittyParentError);
        }
        if same_gender(kitty_a.gender(), kitty_b.gender()) {
            return Err(Error::KittyGenderCanNotBeSame);
        }
        let kitty_baby_id = match self.next_kitty_id.next_id() {
            Ok(id) => id,
            Err(e) => {
                return Err(e);
            },
        };
        let kitty_baby_dna = baby_dna(&kitty_a.dna(), &kitty_b.dna(), kitty_baby_id);
        proof {
            lemma_dna_from_bytes(kitty_baby_dna);
        }
        match self.make_kitty(&sender, kitty_baby_dna) {
            Ok(new_kitty) => Ok(Event::CreateKittyBaby(sender, kitty_baby_id, new_kitty)),
            Err(e) => Err(e),
        }
    }
}

/// Whether two kitties' genders are the same.
fn same_gender(a: Option<crate::kitty::Gender>, b: Option<crate::kitty::Gender>) -> (same: bool)
    ensures
        same == (a == b),
{
    match (a, b) {
        (Some(x), Some(y)) => x == y,
        (None, None) => true,
        _ => false,
    }
}

} // verus!
