//! The keys that drive the player and the movement they ask for.
//!
//! Walking left is bound to the left arrow and `A`, walking right to the right
//! arrow and `D`, jumping to the space bar and the up arrow. Holding both
//! directions at once cancels out.

use vstd::prelude::*;

verus! {

/// Which of the player's keys are held down during one fixed step.
#[derive(Clone, Copy, Debug, PartialEq, Eq, Structural)]
pub struct KeyState {
    pub arrow_left: bool,
    pub key_a: bool,
    pub arrow_right: bool,
    pub key_d: bool,
    pub space: bool,
    pub arrow_up: bool,
}

impl KeyState {
    /// A key bound to walking left is held.
    pub open spec fn left_held(self) -> bool {
        self.arrow_left || self.key_a
    }

    /// A key bound to walking right is held.
    pub open spec fn right_held(self) -> bool {
        self.arrow_right || self.key_d
    }

    /// A key bound to jumping is held.
    pub open spec fn jump_held(self) -> bool {
        self.space || self.arrow_up
    }

    /// The horizontal axis asked for: one step left, one step right, or none.
    pub open spec fn axis(self) -> int {
        (if self.right_held() { 1int } else { 0int }) - (if self.left_held() { 1int } else { 0int })
    }
}

/// The horizontal walking direction for the keys held: `-1` for left, `1` for
/// right, `0` when neither or both directions are held.
pub fn horizontal_axis(keys: &KeyState) -> (r: i8)
    ensures
        r as int == keys.axis(),
        -1 <= r <= 1,
{
    let mut axis: i8 = 0;
    if keys.arrow_left || keys.key_a {
        axis = axis - 1;
    }
    if keys.arrow_right || keys.key_d {
        axis = axis + 1;
    }
    axis
}

/// Whether a jump is asked for during this step.
pub fn wants_jump(keys: &KeyState) -> (r: bool)
    ensures
        r == keys.jump_held(),
{
    keys.space || keys.arrow_up
}

/// What the player asks the character controller for during one step.
///
/// The walking command is issued every step, with `axis` as its direction
/// (zero asks the character to stand still); the jump command is issued only
/// on the steps where `jump` is set.
#[derive(Clone, Copy, Debug, PartialEq, Eq, Structural)]
pub struct MovementIntent {
    pub axis: i8,
    pub jump: bool,
}

/// The movement asked for by the keys held during one step.
pub fn movement_intent(keys: &KeyState) -> (r: MovementIntent)
    ensures
        r.axis as int == keys.axis(),
        r.jump == keys.jump_held(),
{
    MovementIntent { axis: horizontal_axis(keys), jump: wants_jump(keys) }
}

} // verus!
