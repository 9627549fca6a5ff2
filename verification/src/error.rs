//! The ways a request can be turned down.
use vstd::prelude::*;

verus! {

/// Why the library gave no answer.
#[derive(Clone, Copy, Debug, PartialEq, Eq, Structural)]
pub enum Error {
    /// The table of costs does not have as many rows as columns, or not as
    /// many as there are agents.
    ShapeError,
    /// The observation vector is too short for the quantity asked for, or
    /// the landmark asked for does not exist.
    IndexError,
}

} // verus!
