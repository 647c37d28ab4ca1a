//! Which of the two lists takes the keys.

use vstd::prelude::*;

verus! {

/// The list that is active: one of the two, never both.
#[derive(Clone, Copy, Debug, PartialEq, Eq, Structural)]
pub enum Focus {
    Todo,
    Done,
}

impl Focus {
    /// The other list.
    pub open spec fn other(self) -> Focus {
        match self {
            Focus::Todo => Focus::Done,
            Focus::Done => Focus::Todo,
        }
    }

    /// The other list. Toggling twice gives the first one back.
    pub fn toggle(&self) -> (focus: Focus)
        ensures
            focus == self.other(),
            focus != *self,
            focus.other() == *self,
    {
        match self {
            Focus::Todo => Focus::Done,
            Focus::Done => Focus::Todo,
        }
    }
}

} // verus!
