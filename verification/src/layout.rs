//! Where each quantity sits in the flat observation vector.
//!
//! The environment hands every agent one vector per step. Its first four
//! slots describe the agent itself; then come the offsets of the landmarks
//! and of the other agents, each as an `x` slot followed by a `y` slot; the
//! communication channels close the vector.
use vstd::prelude::*;

verus! {

/// The number of landmarks, and of agents.
pub const LANDMARKS: usize = 3;

/// The number of agents other than the observing one.
pub const OTHER_AGENTS: usize = 2;

/// The slot of the first landmark's `x` offset.
pub const LANDMARK_BASE: usize = 4;

/// The slot of the first other agent's `x` offset.
pub const OTHER_AGENT_BASE: usize = 10;

/// The slot of the first communication channel, where the offsets end.
pub const COMMUNICATION_BASE: usize = 14;

/// The number of slots in a full observation.
pub const OBSERVATION_LEN: usize = 18;

/// A named slot of the observation vector.
#[derive(Clone, Copy, Debug, PartialEq, Eq, Structural)]
pub enum Field {
    SelfVelX,
    SelfVelY,
    SelfPosX,
    SelfPosY,
    LandmarkOneRelPositionX,
    LandmarkOneRelPositionY,
    LandmarkTwoRelPositionX,
    LandmarkTwoRelPositionY,
    LandmarkThreeRelPositionX,
    LandmarkThreeRelPositionY,
    OtherAgentOneRelPositionX,
    OtherAgentOneRelPositionY,
    OtherAgentTwoRelPositionX,
    OtherAgentTwoRelPositionY,
    CommunicationOne,
    CommunicationTwo,
    CommunicationThree,
    CommunicationFour,
}

impl Field {
    /// The position of the slot in the vector.
    pub open spec fn spec_index(self) -> nat {
        match self {
            Field::SelfVelX => 0,
            Field::SelfVelY => 1,
            Field::SelfPosX => 2,
            Field::SelfPosY => 3,
            Field::LandmarkOneRelPositionX => 4,
            Field::LandmarkOneRelPositionY => 5,
            Field::LandmarkTwoRelPositionX => 6,
            Field::LandmarkTwoRelPositionY => 7,
            Field::LandmarkThreeRelPositionX => 8,
            Field::LandmarkThreeRelPositionY => 9,
            Field::OtherAgentOneRelPositionX => 10,
            Field::OtherAgentOneRelPositionY => 11,
            Field::OtherAgentTwoRelPositionX => 12,
            Field::OtherAgentTwoRelPositionY => 13,
            Field::CommunicationOne => 14,
            Field::CommunicationTwo => 15,
            Field::CommunicationThree => 16,
            Field::CommunicationFour => 17,
        }
    }

    /// The position of the slot in the vector.
    pub fn index(self) -> (index: usize)
        ensures
            index == self.spec_index(),
    {
        match self {
            Field::SelfVelX => 0,
            Field::SelfVelY => 1,
            Field::SelfPosX => 2,
            Field::SelfPosY => 3,
            Field::LandmarkOneRelPositionX => 4,
            Field::LandmarkOneRelPositionY => 5,
            Field::LandmarkTwoRelPositionX => 6,
            Field::LandmarkTwoRelPositionY => 7,
            Field::LandmarkThreeRelPositionX => 8,
            Field::LandmarkThreeRelPositionY => 9,
            Field::OtherAgentOneRelPositionX => 10,
            Field::OtherAgentOneRelPositionY => 11,
            Field::OtherAgentTwoRelPositionX => 12,
            Field::OtherAgentTwoRelPositionY => 13,
            Field::CommunicationOne => 14,
            Field::CommunicationTwo => 15,
            Field::CommunicationThree => 16,
            Field::CommunicationFour => 17,
        }
    }
}

/// The slot of the `x` offset of landmark `landmark`, counted from zero.
pub open spec fn spec_landmark_x(landmark: int) -> int {
    LANDMARK_BASE + 2 * landmark
}

/// The slot of the `y` offset of landmark `landmark`, counted from zero.
pub open spec fn spec_landmark_y(landmark: int) -> int {
    LANDMARK_BASE + 2 * landmark + 1
}

/// The slot of the `x` offset of other agent `agent`, counted from zero.
pub open spec fn spec_other_agent_x(agent: int) -> int {
    OTHER_AGENT_BASE + 2 * agent
}

/// The slot of the `y` offset of other agent `agent`, counted from zero.
pub open spec fn spec_other_agent_y(agent: int) -> int {
    OTHER_AGENT_BASE + 2 * agent + 1
}

/// The slot of the `x` offset of landmark `landmark`, counted from zero.
pub fn landmark_x(landmark: usize) -> (slot: usize)
    requires
        landmark < LANDMARKS,
    ensures
        slot == spec_landmark_x(landmark as int),
{
    LANDMARK_BASE + 2 * landmark
}

/// The slot of the `y` offset of landmark `landmark`, counted from zero.
pub fn landmark_y(landmark: usize) -> (slot: usize)
    requires
        landmark < LANDMARKS,
    ensures
        slot == spec_landmark_y(landmark as int),
{
    LANDMARK_BASE + 2 * landmark + 1
}

/// The slot of the `x` offset of other agent `agent`, counted from zero.
pub fn other_agent_x(agent: usize) -> (slot: usize)
    requires
        agent < OTHER_AGENTS,
    ensures
        slot == spec_other_agent_x(agent as int),
{
    OTHER_AGENT_BASE + 2 * agent
}

/// The slot of the `y` offset of other agent `agent`, counted from zero.
pub fn other_agent_y(agent: usize) -> (slot: usize)
    requires
        agent < OTHER_AGENTS,
    ensures
        slot == spec_other_agent_y(agent as int),
{
    OTHER_AGENT_BASE + 2 * agent + 1
}

/// Every slot of a full observation has exactly one name.
pub proof fn lemma_fields_cover_observation(a: Field, b: Field, slot: int)
    ensures
        a.spec_index() < OBSERVATION_LEN,
        a.spec_index() == b.spec_index() <==> a == b,
        0 <= slot < OBSERVATION_LEN ==> exists|field: Field| #[trigger] field.spec_index() == slot,
{
    if 0 <= slot < OBSERVATION_LEN {
        let field = if slot == 0 {
            Field::SelfVelX
        } else if slot == 1 {
            Field::SelfVelY
        } else if slot == 2 {
            Field::SelfPosX
        } else if slot == 3 {
            Field::SelfPosY
        } else if slot == 4 {
            Field::LandmarkOneRelPositionX
        } else if slot == 5 {
            Field::LandmarkOneRelPositionY
        } else if slot == 6 {
            Field::LandmarkTwoRelPositionX
        } else if slot == 7 {
            Field::LandmarkTwoRelPositionY
        } else if slot == 8 {
            Field::LandmarkThreeRelPositionX
        } else if slot == 9 {
            Field::LandmarkThreeRelPositionY
        } else if slot == 10 {
            Field::OtherAgentOneRelPositionX
        } else if slot == 11 {
            Field::OtherAgentOneRelPositionY
        } else if slot == 12 {
            Field::OtherAgentTwoRelPositionX
        } else if slot == 13 {
            Field::OtherAgentTwoRelPositionY
        } else if slot == 14 {
            Field::CommunicationOne
        } else if slot == 15 {
            Field::CommunicationTwo
        } else if slot == 16 {
            Field::CommunicationThree
        } else {
            Field::CommunicationFour
        };
        assert(field.spec_index() == slot);
    }
}

/// The offsets of landmarks and agents lie in pairs, `x` then `y`, two slots
/// apart from one landmark or agent to the next, at the named slots.
pub proof fn lemma_offsets_are_contiguous_pairs()
    ensures
        forall|k: int| #[trigger] spec_landmark_y(k) == spec_landmark_x(k) + 1,
        forall|k: int| spec_landmark_x(k + 1) == #[trigger] spec_landmark_x(k) + 2,
        forall|k: int| #[trigger] spec_other_agent_y(k) == spec_other_agent_x(k) + 1,
        forall|k: int| spec_other_agent_x(k + 1) == #[trigger] spec_other_agent_x(k) + 2,
        spec_landmark_x(0) == Field::LandmarkOneRelPositionX.spec_index(),
        spec_landmark_y(0) == Field::LandmarkOneRelPositionY.spec_index(),
        spec_landmark_x(1) == Field::LandmarkTwoRelPositionX.spec_index(),
        spec_landmark_y(1) == Field::LandmarkTwoRelPositionY.spec_index(),
        spec_landmark_x(2) == Field::LandmarkThreeRelPositionX.spec_index(),
        spec_landmark_y(2) == Field::LandmarkThreeRelPositionY.spec_index(),
        spec_other_agent_x(0) == Field::OtherAgentOneRelPositionX.spec_index(),
        spec_other_agent_y(0) == Field::OtherAgentOneRelPositionY.spec_index(),
        spec_other_agent_x(1) == Field::OtherAgentTwoRelPositionX.spec_index(),
        spec_other_agent_y(1) == Field::OtherAgentTwoRelPositionY.spec_index(),
        spec_landmark_x(LANDMARKS as int) == OTHER_AGENT_BASE,
        spec_other_agent_x(OTHER_AGENTS as int) == COMMUNICATION_BASE,
{
}

} // verus!
