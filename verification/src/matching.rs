use vstd::prelude::*;

verus! {

/// Whether a publisher or querier currently has matching subscribers or
/// queryables on the other side.
#[derive(Debug, Clone, Copy, PartialEq, Eq, Structural)]
pub struct MatchingStatus {
    matching: bool,
}

impl MatchingStatus {
    pub closed spec fn spec_matching(&self) -> bool {
        self.matching
    }

    /// The status as reported by Zenoh.
    pub fn new(matching: bool) -> (r: Self)
        ensures
            r.spec_matching() == matching,
    {
        MatchingStatus { matching }
    }

    /// Whether there is at least one match.
    pub fn is_matching(&self) -> (r: bool)
        ensures
            r == self.spec_matching(),
    {
        self.matching
    }
}

} // verus!
