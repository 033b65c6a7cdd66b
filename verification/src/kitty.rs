//! The kitty record and the gender that its DNA determines.

use vstd::prelude::*;

verus! {

/// The two-valued trait every kitty carries. It is fixed by the kitty's DNA.
#[derive(Clone, Copy, Debug, PartialEq, Eq, Structural)]
pub enum Gender {
    Female,
    Male,
}

/// Sum of the bytes of `dna`, as a mathematical integer.
pub open spec fn dna_sum(dna: Seq<u8>) -> int
    decreases dna.len(),
{
    if dna.len() == 0 {
        0
    } else {
        dna_sum(dna.drop_last()) + dna.last()
    }
}

/// The gender that a DNA determines: `Female` when the sum of its bytes is
/// even, `Male` when it is odd.
pub open spec fn spec_gender_of(dna: Seq<u8>) -> Gender {
    if dna_sum(dna) % 2 == 0 {
        Gender::Female
    } else {
        Gender::Male
    }
}

/// The sum of `n` bytes is at most `255 * n`.
proof fn lemma_dna_sum_bounds(dna: Seq<u8>)
    ensures
        0 <= dna_sum(dna) <= 255 * dna.len(),
    decreases dna.len(),
{
    if dna.len() > 0 {
        lemma_dna_sum_bounds(dna.drop_last());
    }
}

/// Computes the gender of a DNA from the parity of the sum of its bytes.
pub fn gender_of(dna: &[u8; 16]) -> (gender: Gender)
    ensures
        gender == spec_gender_of(dna@),
{
    let mut dna_feature: u16 = 0;
    let mut i: usize = 0;
    while i < 16
        invariant
            i <= 16,
            dna_feature == dna_sum(dna@.take(i as int)),
        decreases 16 - i,
    {
        proof {
            lemma_dna_sum_bounds(dna@.take(i as int));
            assert(dna@.take(i as int + 1).drop_last() =~= dna@.take(i as int));
        }
        dna_feature = dna_feature + dna[i] as u16;
        i = i + 1;
    }
    proof {
        assert(dna@.take(16) =~= dna@);
    }
    if dna_feature % 2 == 0 {
        Gender::Female
    } else {
        Gender::Male
    }
}

/// A kitty: who owns it, its DNA, and the gender that the DNA determines.
#[derive(Clone, Copy, Debug, PartialEq, Eq)]
pub struct Kitty<T> {
    owner: T,
    dna: [u8; 16],
    gender: Option<Gender>,
}

impl<T> Kitty<T> {
    /// The owner, in contracts.
    pub closed spec fn spec_owner(&self) -> T {
        self.owner
    }

    /// The DNA, in contracts.
    pub closed spec fn spec_dna(&self) -> [u8; 16] {
        self.dna
    }

    /// The gender, in contracts.
    pub closed spec fn spec_gender(&self) -> Option<Gender> {
        self.gender
    }

    /// A kitty is well formed when its gender is the one its DNA determines.
    pub open spec fn wf(&self) -> bool {
        self.spec_gender() == Some(spec_gender_of(self.spec_dna()@))
    }

    /// The kitty that `owner` gets from `dna`: its gender is the one the
    /// DNA determines.
    pub closed spec fn spec_new(owner: T, dna: [u8; 16]) -> Self {
        Kitty { owner, dna, gender: Some(spec_gender_of(dna@)) }
    }

    /// What `spec_new` puts in each field.
    pub proof fn lemma_spec_new(owner: T, dna: [u8; 16])
        ensures
            Self::spec_new(owner, dna).spec_owner() == owner,
            Self::spec_new(owner, dna).spec_dna() == dna,
            Self::spec_new(owner, dna).spec_gender() == Some(spec_gender_of(dna@)),
            Self::spec_new(owner, dna).wf(),
    {
    }

    /// A well-formed kitty is determined by its owner and its DNA.
    pub proof fn lemma_wf_is_new(self)
        requires
            self.wf(),
        ensures
            self == Self::spec_new(self.spec_owner(), self.spec_dna()),
    {
    }

    /// Makes the kitty that `owner` gets from `dna`; its gender is derived
    /// from the DNA.
    pub fn new(owner: T, dna: [u8; 16]) -> (kitty: Self)
        ensures
            kitty == Self::spec_new(owner, dna),
            kitty.spec_owner() == owner,
            kitty.spec_dna() == dna,
            kitty.spec_gender() == Some(spec_gender_of(dna@)),
            kitty.wf(),
    {
        let gender = gender_of(&dna);
        Kitty { owner, dna, gender: Some(gender) }
    }

    /// The account that owns the kitty.
    pub fn owner(&self) -> (owner: &T)
        ensures
            *owner == self.spec_owner(),
    {
        &self.owner
    }

    /// The kitty's DNA.
    pub fn dna(&self) -> (dna: [u8; 16])
        ensures
            dna == self.spec_dna(),
    {
        self.dna
    }

    /// The kitty's gender.
    pub fn gender(&self) -> (gender: Option<Gender>)
        ensures
            gender == self.spec_gender(),
    {
        self.gender
    }
}

} // verus!
