//! A registry of kitties: uniquely numbered creatures that accounts own,
//! create out of fresh entropy, and breed from two parents of different
//! gender.
//!
//! A kitty's DNA is the 128-bit Blake2 hash of the encoded inputs of its
//! birth, and its gender is the parity of the sum of the DNA's bytes.
//! Identifiers come from one counter that all owners share: they start at 0,
//! go up by one with every kitty, and are never used twice. Accounts and
//! seeds are 32 bytes long. A call that is refused changes nothing.

pub mod allocator;
pub mod dna;
pub mod error;
pub mod kitty;
pub mod laws;
pub mod module;
pub mod registry;

pub use allocator::NextKittyId;
pub use dna::{baby_dna, random_dna, AccountId};
pub use error::Error;
pub use kitty::{gender_of, Gender, Kitty};
pub use module::{Event, Module};
pub use registry::{same_account, Kitties};
