//! Word from an adapter that its answer will take a while.
use vstd::prelude::*;

verus! {

/// The state of work that is not yet done.
pub struct Delay {
    /// The fraction of the work that is done, between 0 and 1, as the bits
    /// of a double-precision number; `None` where it is unknown.
    pub progress: Option<u64>,
    /// A description of the state for the user, where there is one.
    pub description: Option<String>,
}

} // verus!
