//! Scope type sets: finite bit-sets over the abstract runtime categories a
//! scripted expression can operate on.

use vstd::prelude::*;

verus! {

// The scope types, one bit each. `SCOPE_NONE` stands for "no scope needed".
pub const SCOPE_NONE: u64 = 0x0000_0001;
pub const SCOPE_VALUE: u64 = 0x0000_0002;
pub const SCOPE_BOOL: u64 = 0x0000_0004;
pub const SCOPE_FLAG: u64 = 0x0000_0008;
pub const SCOPE_CHARACTER: u64 = 0x0000_0010;
pub const SCOPE_LANDED_TITLE: u64 = 0x0000_0020;
pub const SCOPE_PROVINCE: u64 = 0x0000_0040;
pub const SCOPE_CULTURE: u64 = 0x0000_0080;
pub const SCOPE_FAITH: u64 = 0x0000_0100;
pub const SCOPE_RELIGION: u64 = 0x0000_0200;
pub const SCOPE_DYNASTY: u64 = 0x0000_0400;
pub const SCOPE_DYNASTY_HOUSE: u64 = 0x0000_0800;
pub const SCOPE_WAR: u64 = 0x0000_1000;
pub const SCOPE_ARMY: u64 = 0x0000_2000;
pub const SCOPE_SCHEME: u64 = 0x0000_4000;
pub const SCOPE_SECRET: u64 = 0x0000_8000;
pub const SCOPE_ACTIVITY: u64 = 0x0001_0000;
pub const SCOPE_ARTIFACT: u64 = 0x0002_0000;
pub const SCOPE_FACTION: u64 = 0x0004_0000;
pub const SCOPE_STORY_CYCLE: u64 = 0x0008_0000;
pub const SCOPE_ALL: u64 = 0x000f_ffff;

/// A set of scope types, one bit per type.
#[derive(Clone, Copy, Debug, PartialEq, Eq, Structural)]
pub struct Scopes {
    pub bits: u64,
}

impl Scopes {
    /// The set that holds no scope type.
    pub open spec fn spec_empty() -> Scopes {
        Scopes { bits: 0 }
    }

    /// The set of every scope type.
    pub open spec fn spec_all() -> Scopes {
        Scopes { bits: SCOPE_ALL }
    }

    /// The scope types that are in both sets.
    pub open spec fn spec_intersection(self, other: Scopes) -> Scopes {
        Scopes { bits: self.bits & other.bits }
    }

    /// The scope types that are in either set.
    pub open spec fn spec_union(self, other: Scopes) -> Scopes {
        Scopes { bits: self.bits | other.bits }
    }

    /// Whether the two sets share a scope type.
    pub open spec fn spec_intersects(self, other: Scopes) -> bool {
        self.bits & other.bits != 0
    }

    /// Whether no scope type is in the set.
    pub open spec fn spec_is_empty(self) -> bool {
        self.bits == 0
    }

    #[verifier::when_used_as_spec(spec_empty)]
    pub fn empty() -> (r: Scopes)
        ensures
            r == Scopes::spec_empty(),
    {
        Scopes { bits: 0 }
    }

    #[verifier::when_used_as_spec(spec_all)]
    pub fn all() -> (r: Scopes)
        ensures
            r == Scopes::spec_all(),
    {
        Scopes { bits: SCOPE_ALL }
    }

    /// A set from its bits; bits that name no scope type are dropped.
    pub fn from_bits(bits: u64) -> (r: Scopes)
        ensures
            r.bits == bits & SCOPE_ALL,
    {
        Scopes { bits: bits & SCOPE_ALL }
    }

    #[verifier::when_used_as_spec(spec_intersection)]
    pub fn intersection(self, other: Scopes) -> (r: Scopes)
        ensures
            r == self.spec_intersection(other),
    {
        Scopes { bits: self.bits & other.bits }
    }

    #[verifier::when_used_as_spec(spec_union)]
    pub fn union(self, other: Scopes) -> (r: Scopes)
        ensures
            r == self.spec_union(other),
    {
        Scopes { bits: self.bits | other.bits }
    }

    #[verifier::when_used_as_spec(spec_intersects)]
    pub fn intersects(self, other: Scopes) -> (r: bool)
        ensures
            r == self.spec_intersects(other),
    {
        self.bits & other.bits != 0
    }

    #[verifier::when_used_as_spec(spec_is_empty)]
    pub fn is_empty(self) -> (r: bool)
        ensures
            r == self.spec_is_empty(),
    {
        self.bits == 0
    }
}


impl Scopes {
    /// Whether the scope type with the number `i` is in the set.
    pub open spec fn has(self, i: nat) -> bool {
        i < 64 && self.bits & (1u64 << (i as u64)) != 0
    }

    /// Whether every scope type of the set is in `other`.
    pub open spec fn within(self, other: Scopes) -> bool {
        forall|i: nat| #[trigger] self.has(i) ==> other.has(i)
    }
}

/// The scope types that two sets share are in each of the two.
pub proof fn lemma_intersection_within(a: Scopes, b: Scopes)
    ensures
        a.intersection(b).within(a),
        a.intersection(b).within(b),
{
    let x = a.bits;
    let y = b.bits;
    assert forall|i: nat| #[trigger] a.intersection(b).has(i) implies a.has(i) && b.has(i) by {
        let k = i as u64;
        assert((x & y) & (1u64 << k) != 0 ==> x & (1u64 << k) != 0 && y & (1u64 << k) != 0) by (bit_vector);
    }
}

} // verus!
