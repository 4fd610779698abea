//! Message bodies.
use vstd::prelude::*;
use crate::sys::BodySize;

verus! {

/// Message body buffer, shared by producer and consumer.
///
/// Usually implemented in hosts.
pub trait Body {
    /// The size of the body, where it is known.
    spec fn spec_size(&self) -> Option<u64>;

    /// Returns the size of the body, or `None` if the size is not known.
    fn size(&self) -> (r: Option<u64>)
        ensures
            r == self.spec_size(),
    ;
}

impl Body for BodySize {
    open spec fn spec_size(&self) -> Option<u64> {
        if self.known {
            Some(self.size)
        } else {
            None
        }
    }

    fn size(&self) -> (r: Option<u64>) {
        if self.known {
            Some(self.size)
        } else {
            None
        }
    }
}

} // verus!
