//! Protocol versions.
use vstd::prelude::*;

verus! {

/// A version of up to three parts, each of which may be unknown.
#[derive(Debug, Copy, Clone, Eq)]
pub struct Version {
    pub major: Option<u32>,
    pub minor: Option<u32>,
    pub micro: Option<u32>,
}

impl Version {
    /// A version is known when its major part is.
    pub open spec fn spec_known(&self) -> bool {
        self.major is Some
    }

    /// The comparison that `==` makes: an unknown version equals nothing,
    /// a known one equals the versions with the same three parts.
    pub open spec fn matches(&self, other: &Version) -> bool {
        self.spec_known() && self.major == other.major && self.minor == other.minor
            && self.micro == other.micro
    }

    #[verifier::when_used_as_spec(spec_known)]
    pub fn known(&self) -> (r: bool)
        ensures
            r == self.spec_known(),
    {
        self.major.is_some()
    }
}

/// Compares two optional parts.
fn part_eq(a: Option<u32>, b: Option<u32>) -> (r: bool)
    ensures
        r == (a == b),
{
    match (a, b) {
        (None, None) => true,
        (Some(x), Some(y)) => x == y,
        _ => false,
    }
}

impl PartialEq for Version {
    fn eq(&self, other: &Version) -> (r: bool) {
        self.known() && part_eq(self.major, other.major) && part_eq(self.minor, other.minor)
            && part_eq(self.micro, other.micro)
    }
}

impl vstd::std_specs::cmp::PartialEqSpecImpl for Version {
    open spec fn obeys_eq_spec() -> bool {
        true
    }

    open spec fn eq_spec(&self, other: &Version) -> bool {
        self.matches(other)
    }
}

} // verus!
