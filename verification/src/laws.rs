//! What holds of every run of calls: identifiers are given out once and in
//! order, a refused call changes nothing, and a new kitty belongs to the
//! caller.

use crate::dna::AccountId;
use crate::error::Error;
use crate::kitty::Kitty;
use crate::module::{
    spec_breed_refusal, spec_create, spec_create_kitty_baby, spec_make_kitty, Event, State,
};
use vstd::prelude::*;

verus! {

/// One call, by its arguments.
pub enum Call {
    /// `create` by `sender`, with the entropy given.
    Create { sender: AccountId, seed: Seq<u8>, extrinsic_index: Option<u32> },
    /// `create_kitty_baby` by `sender`, on two parents.
    Breed { sender: AccountId, kitty_a_id: u32, kitty_b_id: u32 },
}

impl Call {
    /// Who makes the call.
    pub open spec fn sender(self) -> AccountId {
        match self {
            Call::Create { sender, .. } => sender,
            Call::Breed { sender, .. } => sender,
        }
    }
}

/// What a call does to a state and what it returns.
pub open spec fn spec_step(s: State, call: Call) -> (State, Result<Event, Error>) {
    match call {
        Call::Create { sender, seed, extrinsic_index } => spec_create(
            s,
            sender,
            seed,
            extrinsic_index,
        ),
        Call::Breed { sender, kitty_a_id, kitty_b_id } => spec_create_kitty_baby(
            s,
            sender,
            kitty_a_id,
            kitty_b_id,
        ),
    }
}

/// The state after the calls `calls`, made in order from the state `s`.
pub open spec fn spec_run(s: State, calls: Seq<Call>) -> State
    decreases calls.len(),
{
    if calls.len() == 0 {
        s
    } else {
        spec_step(spec_run(s, calls.drop_last()), calls.last()).0
    }
}

/// The identifiers that the successful ones among `calls` were given, in
/// the order of the calls.
pub open spec fn spec_issued(s: State, calls: Seq<Call>) -> Seq<u32>
    decreases calls.len(),
{
    if calls.len() == 0 {
        Seq::empty()
    } else {
        let before = spec_issued(s, calls.drop_last());
        match spec_step(spec_run(s, calls.drop_last()), calls.last()).1 {
            Ok(event) => before.push(event.kitty_id()),
            Err(_) => before,
        }
    }
}

/// `make_kitty` keeps a well-formed state well formed. When it succeeds it
/// uses the identifier the counter stood at, which no kitty had, and moves
/// the counter one forward; when it fails the state is unchanged. In a
/// well-formed state it never finds the identifier taken.
pub proof fn lemma_make_kitty(s: State, owner: AccountId, dna: [u8; 16])
    requires
        s.wf(),
    ensures
        ({
            let (after, made) = spec_make_kitty(s, owner, dna);
            &&& after.wf()
            &&& made is Err ==> after == s
            &&& made is Ok <==> s.next_kitty_id < u32::MAX
            &&& made != Err::<Kitty<AccountId>, Error>(Error::KittiesIdOccupied)
            &&& made is Ok ==> {
                &&& made == Ok::<Kitty<AccountId>, Error>(Kitty::spec_new(owner, dna))
                &&& !s.kitties.contains_key(s.next_kitty_id)
                &&& after.next_kitty_id == s.next_kitty_id + 1
                &&& after.kitties == s.kitties.insert(s.next_kitty_id, Kitty::spec_new(owner, dna))
                &&& after.owners == s.owners.insert(s.next_kitty_id, owner)
            }
        }),
{
    Kitty::lemma_spec_new(owner, dna);
    let (after, made) = spec_make_kitty(s, owner, dna);
    if made is Ok {
        assert(after.owners.dom() =~= after.kitties.dom());
    }
}

/// Every call keeps a well-formed state well formed. A successful call
/// announces the caller, the identifier the counter stood at, and the kitty
/// it stored under that identifier; it moves the counter one forward. A
/// refused call leaves the state as it was.
pub proof fn lemma_step(s: State, call: Call)
    requires
        s.wf(),
    ensures
        ({
            let (after, result) = spec_step(s, call);
            &&& after.wf()
            &&& result is Err ==> after == s
            &&& result matches Ok(event) ==> {
                &&& event.who() == call.sender()
                &&& event.kitty_id() == s.next_kitty_id
                &&& event.kitty().spec_owner() == call.sender()
                &&& event.kitty().wf()
                &&& !s.kitties.contains_key(event.kitty_id())
                &&& after.next_kitty_id == s.next_kitty_id + 1
                &&& after.kitties == s.kitties.insert(event.kitty_id(), event.kitty())
                &&& after.owners == s.owners.insert(event.kitty_id(), call.sender())
            }
        }),
{
    match call {
        Call::Create { sender, seed, extrinsic_index } => {
            let dna = crate::module::dna_from_bytes(
                crate::dna::spec_random_dna(seed, sender@, extrinsic_index),
            );
            lemma_make_kitty(s, sender, dna);
            Kitty::lemma_spec_new(sender, dna);
        },
        Call::Breed { sender, kitty_a_id, kitty_b_id } => {
            if spec_breed_refusal(s, sender, kitty_a_id, kitty_b_id) is None {
                let dna = crate::module::dna_from_bytes(
                    crate::dna::spec_baby_dna(
                        s.kitties[kitty_a_id].spec_dna()@,
                        s.kitties[kitty_b_id].spec_dna()@,
                        s.next_kitty_id,
                    ),
                );
                lemma_make_kitty(s, sender, dna);
                Kitty::lemma_spec_new(sender, dna);
            }
        },
    }
}

/// A call that is refused, for whatever reason, leaves the kitties, the
/// index and the counter exactly as they were.
pub proof fn lemma_refused_call_changes_nothing(s: State, call: Call)
    requires
        s.wf(),
        spec_step(s, call).1 is Err,
    ensures
        spec_step(s, call).0 == s,
{
    lemma_step(s, call);
}

/// After a successful call the index names the caller as the owner of the
/// new kitty, and a lookup by the caller and the new identifier finds the
/// new kitty.
pub proof fn lemma_new_kitty_belongs_to_caller(s: State, call: Call)
    requires
        s.wf(),
        spec_step(s, call).1 is Ok,
    ensures
        ({
            let (after, result) = spec_step(s, call);
            let event = result->Ok_0;
            &&& after.owner_of(event.kitty_id()) == Some(call.sender())
            &&& after.get(event.kitty_id()) == Some(event.kitty())
            &&& after.get_by_owner_and_id(call.sender(), event.kitty_id()) == Some(event.kitty())
        }),
{
    lemma_step(s, call);
}

/// A call never changes or removes a kitty that is already stored.
pub proof fn lemma_kitties_are_kept(s: State, call: Call, id: u32)
    requires
        s.wf(),
        s.kitties.contains_key(id),
    ensures
        spec_step(s, call).0.get(id) == s.get(id),
        spec_step(s, call).0.owner_of(id) == s.owner_of(id),
{
    lemma_step(s, call);
}

/// In a well-formed state the index agrees with the records: it names an
/// owner exactly for the stored kitties, and the owner it names is the one
/// the kitty's record holds.
pub proof fn lemma_index_agrees_with_records(s: State, id: u32)
    requires
        s.wf(),
    ensures
        s.owner_of(id) == match s.get(id) {
            Some(kitty) => Some(kitty.spec_owner()),
            None => None,
        },
{
    if s.kitties.contains_key(id) {
        assert(s.owners.dom().contains(id));
    } else {
        assert(!s.owners.dom().contains(id));
    }
}

/// Two well-formed kitties with the same DNA have the same gender.
pub proof fn lemma_gender_is_determined_by_dna(a: Kitty<AccountId>, b: Kitty<AccountId>)
    requires
        a.wf(),
        b.wf(),
        a.spec_dna() == b.spec_dna(),
    ensures
        a.spec_gender() == b.spec_gender(),
{
}

/// A run keeps a well-formed state well formed, and the identifiers it
/// gives out are consecutive: the first is the one the counter stood at
/// before the run, each next one is one larger, and the counter ends one
/// past the last.
pub proof fn lemma_issued_ids_are_consecutive(s: State, calls: Seq<Call>)
    requires
        s.wf(),
    ensures
        spec_run(s, calls).wf(),
        spec_run(s, calls).next_kitty_id == s.next_kitty_id + spec_issued(s, calls).len(),
        forall|i: int|
            0 <= i < spec_issued(s, calls).len() ==> #[trigger] spec_issued(s, calls)[i]
                == s.next_kitty_id + i,
    decreases calls.len(),
{
    if calls.len() > 0 {
        lemma_issued_ids_are_consecutive(s, calls.drop_last());
        lemma_step(spec_run(s, calls.drop_last()), calls.last());
    }
}

/// The identifiers that a run gives out are strictly increasing in the
/// order of the calls.
pub proof fn lemma_issued_ids_increase(s: State, calls: Seq<Call>, i: int, j: int)
    requires
        s.wf(),
        0 <= i < j < spec_issued(s, calls).len(),
    ensures
        spec_issued(s, calls)[i] < spec_issued(s, calls)[j],
{
    lemma_issued_ids_are_consecutive(s, calls);
}

/// No identifier is given out twice in a run, and none that a kitty already
/// had before the run.
pub proof fn lemma_issued_ids_are_unique(s: State, calls: Seq<Call>)
    requires
        s.wf(),
    ensures
        spec_issued(s, calls).no_duplicates(),
        forall|i: int|
            0 <= i < spec_issued(s, calls).len() ==> !s.kitties.contains_key(
                #[trigger] spec_issued(s, calls)[i],
            ),
{
    lemma_issued_ids_are_consecutive(s, calls);
}

} // verus!
