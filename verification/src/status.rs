//! The two panels of the interface: the TODO list and the DONE list.

use vstd::prelude::*;

verus! {

/// Which of the two lists an item belongs to, and likewise which panel
/// currently has navigation focus.
#[derive(Copy, Clone, PartialEq, Eq, Structural, Debug)]
pub enum Status {
    Todo,
    Done,
}

impl Status {
    /// The other panel.
    pub open spec fn spec_toggle(self) -> Status {
        match self {
            Status::Todo => Status::Done,
            Status::Done => Status::Todo,
        }
    }

    /// Switch focus to the other panel.
    #[verifier::when_used_as_spec(spec_toggle)]
    pub fn toggle(self) -> (r: Status)
        ensures
            r == self.spec_toggle(),
    {
        match self {
            Status::Todo => Status::Done,
            Status::Done => Status::Todo,
        }
    }
}

} // verus!
