//! The step that takes an agent towards a relative offset.
use crate::action::Action;
use crate::binary64::{
    abs_lt, is_positive, spec_abs_lt, spec_is_not_positive, spec_is_positive,
};
use vstd::prelude::*;

verus! {

/// The step towards the offset `(rel_x, rel_y)`: along `y` where `|rel_x|` is
/// below `|rel_y|`, up for a positive `rel_y` and down otherwise; along `x`
/// in every other case, right for a positive `rel_x` and left otherwise.
pub open spec fn spec_choose_action(rel_x: u64, rel_y: u64) -> Action {
    if spec_abs_lt(rel_x, rel_y) {
        if spec_is_positive(rel_y) {
            Action::MoveUp
        } else {
            Action::MoveDown
        }
    } else {
        if spec_is_positive(rel_x) {
            Action::MoveRight
        } else {
            Action::MoveLeft
        }
    }
}

/// Picks the step that shortens the longer of the two axis distances to a
/// target at the offset `(rel_x, rel_y)`, each given as a binary64 pattern.
///
/// Equal distances count for the `x` axis, and a distance of zero on the
/// chosen axis steps towards the negative side, so the offset `(0, 0)` gives
/// [`Action::MoveLeft`].
pub fn choose_action(rel_x: u64, rel_y: u64) -> (action: Action)
    ensures
        action == spec_choose_action(rel_x, rel_y),
{
    if abs_lt(rel_x, rel_y) {
        if is_positive(rel_y) {
            Action::MoveUp
        } else {
            Action::MoveDown
        }
    } else {
        if is_positive(rel_x) {
            Action::MoveRight
        } else {
            Action::MoveLeft
        }
    }
}

/// Where the offset is longer along `x` than along `y`, the step is to the
/// left exactly when `rel_x <= 0` and to the right exactly when `rel_x > 0`.
pub proof fn lemma_x_dominates(rel_x: u64, rel_y: u64)
    requires
        spec_abs_lt(rel_y, rel_x),
    ensures
        spec_choose_action(rel_x, rel_y) == Action::MoveLeft <==> spec_is_not_positive(rel_x),
        spec_choose_action(rel_x, rel_y) == Action::MoveRight <==> spec_is_positive(rel_x),
{
}

/// Where the offset is longer along `y` than along `x`, the step is down
/// exactly when `rel_y <= 0` and up exactly when `rel_y > 0`.
pub proof fn lemma_y_dominates(rel_x: u64, rel_y: u64)
    requires
        spec_abs_lt(rel_x, rel_y),
    ensures
        spec_choose_action(rel_x, rel_y) == Action::MoveDown <==> spec_is_not_positive(rel_y),
        spec_choose_action(rel_x, rel_y) == Action::MoveUp <==> spec_is_positive(rel_y),
{
}

/// The step never stands still, and it goes along `y` exactly when the
/// offset is longer along `y` than along `x`.
pub proof fn lemma_step_follows_longer_axis(rel_x: u64, rel_y: u64)
    ensures
        spec_choose_action(rel_x, rel_y) != Action::NoAction,
        spec_abs_lt(rel_x, rel_y) <==> spec_choose_action(rel_x, rel_y) == Action::MoveDown
            || spec_choose_action(rel_x, rel_y) == Action::MoveUp,
        !spec_abs_lt(rel_x, rel_y) <==> spec_choose_action(rel_x, rel_y) == Action::MoveLeft
            || spec_choose_action(rel_x, rel_y) == Action::MoveRight,
{
}

} // verus!
