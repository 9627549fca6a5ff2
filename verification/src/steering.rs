//! From an observation to the step of the observing agent.
use crate::action::Action;
use crate::assignment::{get_target_assignments, is_assignment, is_optimal, is_square};
use crate::direction::{choose_action, spec_choose_action};
use crate::error::Error;
use crate::layout::{
    landmark_x, landmark_y, other_agent_x, other_agent_y, spec_landmark_x, spec_landmark_y,
    spec_other_agent_x, spec_other_agent_y, COMMUNICATION_BASE, LANDMARKS,
};
use crate::solver::{cells_of, kuhn_munkres_min_assignment};
use vstd::prelude::*;

verus! {

/// The two ends of a way from an agent to a landmark, both as offsets from
/// the observing agent, each coordinate as a binary64 pattern.
#[derive(Clone, Copy, Debug, PartialEq, Eq, Structural)]
pub struct Displacement {
    /// Where the agent stands, along `x`.
    pub x_origin: u64,
    /// Where the agent stands, along `y`.
    pub y_origin: u64,
    /// Where the landmark lies, along `x`.
    pub x_rel: u64,
    /// Where the landmark lies, along `y`.
    pub y_rel: u64,
}

/// The way from agent `agent` to landmark `landmark`. Agent 0 is the
/// observing one and stands at the origin; agent `k + 1` is other agent `k`.
pub open spec fn spec_displacement(observations: Seq<u64>, agent: int, landmark: int) -> Displacement {
    Displacement {
        x_origin: if agent == 0 {
            0
        } else {
            observations[spec_other_agent_x(agent - 1)]
        },
        y_origin: if agent == 0 {
            0
        } else {
            observations[spec_other_agent_y(agent - 1)]
        },
        x_rel: observations[spec_landmark_x(landmark)],
        y_rel: observations[spec_landmark_y(landmark)],
    }
}

/// What [`towards_target`] answers.
pub open spec fn spec_towards_target(observations: Seq<u64>, target: int) -> Result<Action, Error> {
    if 0 <= target < LANDMARKS && spec_landmark_y(target) < observations.len() {
        Ok(
            spec_choose_action(
                observations[spec_landmark_x(target)],
                observations[spec_landmark_y(target)],
            ),
        )
    } else {
        Err(Error::IndexError)
    }
}

/// What [`towards_landmark`] answers where no target is named, in terms of
/// the assignment that the solver settles on.
pub open spec fn spec_towards_assigned(observations: Seq<u64>, cells: Seq<Seq<int>>) -> Result<
    Action,
    Error,
> {
    if observations.len() < COMMUNICATION_BASE {
        Err(Error::IndexError)
    } else if !(is_square(cells) && cells.len() == LANDMARKS) {
        Err(Error::ShapeError)
    } else {
        spec_towards_target(observations, kuhn_munkres_min_assignment(cells)[0] as int)
    }
}

/// The ways whose lengths make up the table of costs: row `agent`, column
/// `landmark` holds the way from that agent to that landmark.
///
/// An observation that ends before the offsets of the other agents do is
/// turned down.
pub fn displacements(observations: &Vec<u64>) -> (outcome: Result<Vec<Vec<Displacement>>, Error>)
    ensures
        outcome is Ok <==> observations@.len() >= COMMUNICATION_BASE,
        outcome is Err ==> outcome == Err::<Vec<Vec<Displacement>>, Error>(Error::IndexError),
        outcome matches Ok(table) ==> {
            &&& table@.len() == LANDMARKS
            &&& forall|agent: int|
                0 <= agent < LANDMARKS ==> (#[trigger] table@[agent])@.len() == LANDMARKS
            &&& forall|agent: int, landmark: int|
                0 <= agent < LANDMARKS && 0 <= landmark < LANDMARKS ==> #[trigger] table@[agent]@[landmark]
                    == spec_displacement(observations@, agent, landmark)
        },
{
    if observations.len() < COMMUNICATION_BASE {
        return Err(Error::IndexError);
    }
    let mut table: Vec<Vec<Displacement>> = Vec::new();
    let mut agent: usize = 0;
    while agent < LANDMARKS
        invariant
            agent <= LANDMARKS,
            observations@.len() >= COMMUNICATION_BASE,
            table@.len() == agent,
            forall|a: int| 0 <= a < agent ==> (#[trigger] table@[a])@.len() == LANDMARKS,
            forall|a: int, l: int|
                0 <= a < agent && 0 <= l < LANDMARKS ==> #[trigger] table@[a]@[l]
                    == spec_displacement(observations@, a, l),
        decreases LANDMARKS - agent,
    {
        let x_origin: u64 = if agent == 0 {
            0
        } else {
            observations[other_agent_x(agent - 1)]
        };
        let y_origin: u64 = if agent == 0 {
            0
        } else {
            observations[other_agent_y(agent - 1)]
        };
        let mut row: Vec<Displacement> = Vec::new();
        let mut landmark: usize = 0;
        while landmark < LANDMARKS
            invariant
                landmark <= LANDMARKS,
                agent < LANDMARKS,
                observations@.len() >= COMMUNICATION_BASE,
                row@.len() == landmark,
                x_origin == spec_displacement(observations@, agent as int, 0).x_origin,
                y_origin == spec_displacement(observations@, agent as int, 0).y_origin,
                forall|l: int|
                    0 <= l < landmark ==> #[trigger] row@[l] == spec_displacement(
                        observations@,
                        agent as int,
                        l,
                    ),
            decreases LANDMARKS - landmark,
        {
            row.push(
                Displacement {
                    x_origin,
                    y_origin,
                    x_rel: observations[landmark_x(landmark)],
                    y_rel: observations[landmark_y(landmark)],
                },
            );
            landmark += 1;
        }
        table.push(row);
        agent += 1;
    }
    Ok(table)
}

/// The step towards the landmark numbered `target`, counted from zero.
///
/// A number that names no landmark is turned down, and so is an observation
/// that ends before the offset of that landmark does.
pub fn towards_target(observations: &Vec<u64>, target: i32) -> (outcome: Result<Action, Error>)
    ensures
        outcome == spec_towards_target(observations@, target as int),
{
    if target < 0 || target >= LANDMARKS as i32 {
        return Err(Error::IndexError);
    }
    let landmark: usize = target as usize;
    let y_slot: usize = landmark_y(landmark);
    if y_slot >= observations.len() {
        return Err(Error::IndexError);
    }
    Ok(choose_action(observations[landmark_x(landmark)], observations[y_slot]))
}

/// The step of the observing agent.
///
/// With a `target`, the step goes towards the landmark of that number and
/// `distances` is not looked at. Without one, `distances` holds in row `i`
/// the distances of agent `i` to the three landmarks, the landmarks are
/// shared out at the least total distance, and the step goes towards the
/// landmark that falls to the observing agent, which is agent 0.
///
/// Without a target, an observation that ends before the offsets of the
/// other agents do is turned down, and then a table that is not three by
/// three; every other request is answered.
pub fn towards_landmark(
    observations: &Vec<u64>,
    distances: &Vec<Vec<i32>>,
    target: Option<i32>,
) -> (outcome: Result<Action, Error>)
    ensures
        target matches Some(number) ==> outcome == spec_towards_target(
            observations@,
            number as int,
        ),
        target is None ==> {
            &&& outcome == spec_towards_assigned(observations@, cells_of(distances@))
            &&& outcome is Ok <==> observations@.len() >= COMMUNICATION_BASE && is_square(
                cells_of(distances@),
            ) && distances@.len() == LANDMARKS
            &&& outcome is Ok ==> exists|assignment: Seq<usize>|
                {
                    &&& is_assignment(assignment, LANDMARKS as nat)
                    &&& is_optimal(cells_of(distances@), assignment)
                    &&& outcome == spec_towards_target(
                        observations@,
                        #[trigger] assignment[0] as int,
                    )
                }
        },
{
    match target {
        Some(number) => towards_target(observations, number),
        None => {
            if observations.len() < COMMUNICATION_BASE {
                return Err(Error::IndexError);
            }
            if distances.len() != LANDMARKS {
                return Err(Error::ShapeError);
            }
            match get_target_assignments(distances) {
                Err(error) => Err(error),
                Ok(assignment) => {
                    let outcome = towards_target(observations, assignment[0] as i32);
                    assert(is_assignment(assignment@, LANDMARKS as nat) && is_optimal(
                        cells_of(distances@),
                        assignment@,
                    ) && outcome == spec_towards_target(observations@, assignment@[0] as int));
                    outcome
                },
            }
        },
    }
}

} // verus!
