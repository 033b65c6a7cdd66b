//! The ways in which a call can be refused.

use vstd::prelude::*;

verus! {

/// Why a call was refused. A refused call changes nothing.
#[derive(Clone, Copy, Debug, PartialEq, Eq, Structural)]
pub enum Error {
    /// No identifier is left to give out.
    KittiesIdOverflow,
    /// A kitty that the call names was never created.
    KittiesNonExistent,
    /// The caller does not own a kitty that the call names.
    KittyParentError,
    /// Both parents have the same gender.
    KittyGenderCanNotBeSame,
    /// The identifier under which a kitty was to be stored is already taken.
    KittiesIdOccupied,
}

} // verus!
