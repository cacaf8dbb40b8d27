//! Directional input resolution: reduces the four sampled key states to a
//! signed drive intent for each side of the rover (differential steering).

use vstd::prelude::*;

verus! {

/// The four directional intents sampled fresh from the input device every
/// simulation step. Key aliases (several physical keys meaning the same
/// direction) are collapsed before this point.
#[derive(Clone, Copy, PartialEq, Eq, Structural, Debug)]
pub struct DirectionalInput {
    pub forward: bool,
    pub backward: bool,
    pub left: bool,
    pub right: bool,
}

/// Signed per-side drive intents derived from a `DirectionalInput`.
/// Each intent lies in `[-2, 2]`: the drive axis and the turn axis each
/// contribute at most one unit, and opposing contributions can add.
#[derive(Clone, Copy, PartialEq, Eq, Structural, Debug)]
pub struct DriveCommand {
    pub left: i64,
    pub right: i64,
}

/// Contribution of one pressed key: 1 when pressed, 0 when released.
pub open spec fn intent_unit(b: bool) -> int {
    if b {
        1
    } else {
        0
    }
}

/// Intent of the left wheel: forward and turn-right speed it up,
/// backward and turn-left slow it down.
pub open spec fn spec_left_intent(d: DirectionalInput) -> int {
    intent_unit(d.forward) - intent_unit(d.backward) - intent_unit(d.left) + intent_unit(d.right)
}

/// Intent of the right wheel: forward and turn-left speed it up,
/// backward and turn-right slow it down.
pub open spec fn spec_right_intent(d: DirectionalInput) -> int {
    intent_unit(d.forward) - intent_unit(d.backward) + intent_unit(d.left) - intent_unit(d.right)
}

/// The drive command that a given input resolves to.
pub open spec fn spec_resolve(d: DirectionalInput) -> DriveCommand {
    DriveCommand { left: spec_left_intent(d) as i64, right: spec_right_intent(d) as i64 }
}

impl DriveCommand {
    /// Both intents lie in the range reachable from boolean inputs.
    pub open spec fn wf(self) -> bool {
        &&& -2 <= self.left <= 2
        &&& -2 <= self.right <= 2
    }
}

/// Differential-drive reduction: recomputed from scratch every step, with no
/// memory, smoothing or deadzone, so releasing a key takes effect on the very
/// next control step.
pub fn resolve(d: &DirectionalInput) -> (c: DriveCommand)
    ensures
        c == spec_resolve(*d),
        c.left as int == spec_left_intent(*d),
        c.right as int == spec_right_intent(*d),
        c.wf(),
{
    let mut left: i64 = 0;
    let mut right: i64 = 0;
    if d.forward {
        left += 1;
        right += 1;
    }
    if d.backward {
        left -= 1;
        right -= 1;
    }
    if d.left {
        left -= 1;
        right += 1;
    }
    if d.right {
        left += 1;
        right -= 1;
    }
    DriveCommand { left, right }
}

/// Cancellation on the drive axis: when forward and backward are pressed both
/// or neither, that axis contributes nothing, and each side's intent reduces
/// to its turning term alone.
pub proof fn lemma_drive_axis_cancellation(d: DirectionalInput)
    requires
        d.forward == d.backward,
    ensures
        spec_left_intent(d) == intent_unit(d.right) - intent_unit(d.left),
        spec_right_intent(d) == intent_unit(d.left) - intent_unit(d.right),
{
}

/// Cancellation on the turn axis: when turn-left and turn-right are pressed
/// both or neither, there is no net turning contribution — the two sides get
/// one and the same intent, the straight-drive term.
pub proof fn lemma_turn_axis_cancellation(d: DirectionalInput)
    requires
        d.left == d.right,
    ensures
        spec_left_intent(d) == intent_unit(d.forward) - intent_unit(d.backward),
        spec_right_intent(d) == spec_left_intent(d),
{
}

} // verus!
