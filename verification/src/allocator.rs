//! The counter that gives out kitty identifiers.

use crate::error::Error;
use vstd::prelude::*;

verus! {

/// The next identifier to give out. Identifiers are given out in order,
/// starting at 0, from one counter that all owners share; the largest value
/// of the type is never given out.
#[derive(Clone, Copy, Debug)]
pub struct NextKittyId {
    next: u32,
}

impl NextKittyId {
    /// The identifier that the next kitty gets.
    pub closed spec fn view(&self) -> u32 {
        self.next
    }

    /// Whether an identifier is left to give out when the counter stands at
    /// `next`: the counter must be able to move one past it.
    pub open spec fn spec_has_next(next: u32) -> bool {
        next + 1 <= u32::MAX
    }

    /// A counter that starts at 0.
    pub fn new() -> (counter: Self)
        ensures
            counter@ == 0,
    {
        NextKittyId { next: 0 }
    }

    /// A counter that stands at `next`.
    pub fn starting_at(next: u32) -> (counter: Self)
        ensures
            counter@ == next,
    {
        NextKittyId { next }
    }

    /// The value the counter stands at, whether or not it can be given out.
    pub fn peek(&self) -> (next: u32)
        ensures
            next == self@,
    {
        self.next
    }

    /// The identifier for the next kitty. It is refused when the counter
    /// could not move past it. The counter itself does not move.
    pub fn next_id(&self) -> (result: Result<u32, Error>)
        ensures
            Self::spec_has_next(self@) ==> result == Ok::<u32, Error>(self@),
            !Self::spec_has_next(self@) ==> result == Err::<u32, Error>(Error::KittiesIdOverflow),
    {
        match self.next.checked_add(1) {
            Some(_) => Ok(self.next),
            None => Err(Error::KittiesIdOverflow),
        }
    }

    /// Moves the counter one forward, after the identifier it stood at was
    /// used.
    pub fn commit(&mut self)
        requires
            Self::spec_has_next(old(self)@),
        ensures
            final(self)@ == old(self)@ + 1,
    {
        self.next = self.next + 1;
    }
}

} // verus!
