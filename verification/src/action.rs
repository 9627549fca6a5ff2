//! The discrete moves an agent can make.
use vstd::prelude::*;

verus! {

/// One step of an agent in the plane, or no step at all.
#[derive(Clone, Copy, Debug, PartialEq, Eq, Structural)]
pub enum Action {
    NoAction,
    MoveLeft,
    MoveRight,
    MoveDown,
    MoveUp,
}

impl Action {
    /// The integer under which the environment knows this action.
    pub open spec fn code_spec(self) -> int {
        match self {
            Action::NoAction => 0,
            Action::MoveLeft => 1,
            Action::MoveRight => 2,
            Action::MoveDown => 3,
            Action::MoveUp => 4,
        }
    }

    /// The integer under which the environment knows this action.
    pub fn code(self) -> (code: i32)
        ensures
            code == self.code_spec(),
    {
        match self {
            Action::NoAction => 0,
            Action::MoveLeft => 1,
            Action::MoveRight => 2,
            Action::MoveDown => 3,
            Action::MoveUp => 4,
        }
    }
}

/// Distinct actions have distinct codes, and every code lies in `0..=4`.
pub proof fn lemma_codes_distinct(a: Action, b: Action)
    ensures
        0 <= a.code_spec() <= 4,
        a.code_spec() == b.code_spec() <==> a == b,
{
}

} // verus!
