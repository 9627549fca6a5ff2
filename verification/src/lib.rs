//! Landmark assignment and steering for a small team of agents.
//!
//! Each agent of a three-agent team observes three landmarks. The team wants
//! every landmark covered by exactly one agent at the least total travel
//! distance, and each agent then takes one discrete step towards the landmark
//! it was given.
//!
//! * [`layout`] fixes where each quantity sits in the flat observation vector.
//! * [`binary64`] gives the order of the observed numbers, which are carried
//!   as IEEE 754 binary64 bit patterns.
//! * [`direction`] picks the step towards a relative offset.
//! * [`solver`] and [`assignment`] match agents to landmarks.
//! * [`steering`] ties the pieces together.
use vstd::prelude::*;

pub mod action;
pub mod assignment;
pub mod binary64;
pub mod direction;
pub mod error;
pub mod layout;
pub mod solver;
pub mod steering;

verus! {

/// A constant answer that lets a host check that the library is reachable.
pub fn return_one() -> (one: i32)
    ensures
        one == 1,
{
    1
}

} // verus!
