//! The store of kitties by identifier, with an index from each identifier
//! to the kitty's owner.

use crate::dna::AccountId;
use crate::error::Error;
use crate::kitty::Kitty;
use std::collections::HashMap;
use vstd::prelude::*;

verus! {

broadcast use vstd::std_specs::hash::group_hash_axioms;

/// Whether two accounts are the same.
pub fn same_account(a: &AccountId, b: &AccountId) -> (same: bool)
    ensures
        same == (*a == *b),
{
    let mut i: usize = 0;
    while i < 32
        invariant
            i <= 32,
            forall|j: int| 0 <= j < i ==> a[j] == b[j],
        decreases 32 - i,
    {
        if a[i] != b[i] {
            return false;
        }
        i = i + 1;
    }
    proof {
        assert(*a =~= *b);
    }
    true
}

/// All kitties ever created, by identifier, and who owns each.
pub struct Kitties {
    kitties: HashMap<u32, Kitty<AccountId>>,
    owners: HashMap<u32, AccountId>,
}

impl Kitties {
    /// The stored kitties, by identifier.
    pub closed spec fn view(&self) -> Map<u32, Kitty<AccountId>> {
        self.kitties@
    }

    /// The index from identifier to owner.
    pub closed spec fn owners(&self) -> Map<u32, AccountId> {
        self.owners@
    }

    /// The index covers exactly the stored kitties and names for each the
    /// owner that the kitty's record holds; every stored kitty is well formed.
    pub open spec fn wf(&self) -> bool {
        &&& self@.dom() == self.owners().dom()
        &&& self@.dom().finite()
        &&& forall|id: u32| #[trigger]
            self@.contains_key(id) ==> self.owners()[id] == self@[id].spec_owner()
        &&& forall|id: u32| #[trigger] self@.contains_key(id) ==> self@[id].wf()
    }

    /// The kitty stored under `id`, if any.
    pub open spec fn spec_get(&self, id: u32) -> Option<Kitty<AccountId>> {
        if self@.contains_key(id) {
            Some(self@[id])
        } else {
            None
        }
    }

    /// The kitty stored under `id`, if there is one and `owner` owns it.
    pub open spec fn spec_get_by_owner_and_id(&self, owner: AccountId, id: u32) -> Option<
        Kitty<AccountId>,
    > {
        if self@.contains_key(id) && self@[id].spec_owner() == owner {
            Some(self@[id])
        } else {
            None
        }
    }

    /// The owner that the index names for `id`, if any.
    pub open spec fn spec_owner_of(&self, id: u32) -> Option<AccountId> {
        if self.owners().contains_key(id) {
            Some(self.owners()[id])
        } else {
            None
        }
    }

    /// A store without kitties.
    pub fn new() -> (kitties: Self)
        ensures
            kitties.wf(),
            kitties@ == Map::<u32, Kitty<AccountId>>::empty(),
            kitties.owners() == Map::<u32, AccountId>::empty(),
    {
        Kitties { kitties: HashMap::new(), owners: HashMap::new() }
    }

    /// Looks up the kitty stored under `id`.
    pub fn get(&self, id: u32) -> (kitty: Option<Kitty<AccountId>>)
        ensures
            kitty == self.spec_get(id),
    {
        match self.kitties.get(&id) {
            Some(kitty) => Some(*kitty),
            None => None,
        }
    }

    /// Looks up the kitty stored under `id`, and hands it out only to its
    /// owner.
    pub fn get_by_owner_and_id(&self, owner: &AccountId, id: u32) -> (kitty: Option<
        Kitty<AccountId>,
    >)
        ensures
            kitty == self.spec_get_by_owner_and_id(*owner, id),
    {
        match self.kitties.get(&id) {
            Some(kitty) => {
                if same_account(kitty.owner(), owner) {
                    Some(*kitty)
                } else {
                    None
                }
            },
            None => None,
        }
    }

    /// Looks up in the index who owns the kitty `id`.
    pub fn owner_of(&self, id: u32) -> (owner: Option<AccountId>)
        ensures
            owner == self.spec_owner_of(id),
            self.wf() ==> owner == match self.spec_get(id) {
                Some(kitty) => Some(kitty.spec_owner()),
                None => None,
            },
    {
        match self.owners.get(&id) {
            Some(owner) => Some(*owner),
            None => None,
        }
    }

    /// Stores `kitty` under `id` and enters its owner in the index. An
    /// identifier that is already taken is refused, and nothing changes.
    pub fn insert(&mut self, id: u32, kitty: Kitty<AccountId>) -> (result: Result<(), Error>)
        requires
            old(self).wf(),
            kitty.wf(),
        ensures
            final(self).wf(),
            old(self)@.contains_key(id) ==> result == Err::<(), Error>(Error::KittiesIdOccupied)
                && *final(self) == *old(self),
            !old(self)@.contains_key(id) ==> result == Ok::<(), Error>(()) && final(self)@ == old(
                self,
            )@.insert(id, kitty) && final(self).owners() == old(self).owners().insert(
                id,
                kitty.spec_owner(),
            ),
    {
        if self.kitties.contains_key(&id) {
            return Err(Error::KittiesIdOccupied);
        }
        let owner = *kitty.owner();
        self.kitties.insert(id, kitty);
        self.owners.insert(id, owner);
        Ok(())
    }
}

} // verus!
