use vstd::prelude::*;

verus! {

/// A set of job properties, one bit each, by which the service list is narrowed.
#[derive(Clone, Copy, Debug, PartialEq, Eq, Structural)]
pub struct JobTypeFilter {
    pub bits: u32,
}

pub const SYSTEM: u32 = 2;

pub const GLOBAL: u32 = 4;

pub const USER: u32 = 8;

pub const AGENT: u32 = 16;

pub const DAEMON: u32 = 32;

pub const LOADED: u32 = 64;

impl JobTypeFilter {
    /// Whether every property of `other` is in this set.
    pub open spec fn spec_contains(self, other: JobTypeFilter) -> bool {
        self.bits & other.bits == other.bits
    }

    /// Whether the two sets share a property.
    pub open spec fn spec_intersects(self, other: JobTypeFilter) -> bool {
        self.bits & other.bits != 0
    }

    /// Whether the set holds no property.
    pub open spec fn spec_is_empty(self) -> bool {
        self.bits == 0
    }

    /// The one property of being loaded.
    pub open spec fn spec_loaded() -> JobTypeFilter {
        JobTypeFilter { bits: LOADED }
    }

    #[verifier::when_used_as_spec(spec_loaded)]
    pub fn loaded() -> (r: JobTypeFilter)
        ensures
            r == JobTypeFilter::spec_loaded(),
    {
        JobTypeFilter { bits: LOADED }
    }

    /// The set with no property.
    pub fn empty() -> (r: JobTypeFilter)
        ensures
            r.bits == 0,
    {
        JobTypeFilter { bits: 0 }
    }

    /// The filter that the list starts with: loaded jobs.
    pub fn launchk_default() -> (r: JobTypeFilter)
        ensures
            r == JobTypeFilter::spec_loaded(),
    {
        JobTypeFilter { bits: LOADED }
    }

    #[verifier::when_used_as_spec(spec_is_empty)]
    pub fn is_empty(self) -> (r: bool)
        ensures
            r == self.spec_is_empty(),
    {
        self.bits == 0
    }

    #[verifier::when_used_as_spec(spec_contains)]
    pub fn contains(self, other: JobTypeFilter) -> (r: bool)
        ensures
            r == self.spec_contains(other),
    {
        self.bits & other.bits == other.bits
    }

    #[verifier::when_used_as_spec(spec_intersects)]
    pub fn intersects(self, other: JobTypeFilter) -> (r: bool)
        ensures
            r == self.spec_intersects(other),
    {
        self.bits & other.bits != 0
    }

    /// Both sets together.
    pub fn union(self, other: JobTypeFilter) -> (r: JobTypeFilter)
        ensures
            r.bits == self.bits | other.bits,
    {
        JobTypeFilter { bits: self.bits | other.bits }
    }

    /// The set with the properties of `other` turned over: out where they were
    /// in, in where they were out.
    pub fn toggle(&mut self, other: JobTypeFilter)
        ensures
            final(self).bits == old(self).bits ^ other.bits,
    {
        self.bits = self.bits ^ other.bits;
    }
}

impl Default for JobTypeFilter {
    fn default() -> (r: JobTypeFilter)
        ensures
            r.bits == 0,
    {
        JobTypeFilter { bits: 0 }
    }
}

} // verus!
