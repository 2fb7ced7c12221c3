//! Rotation directions, rotation axes, and the queued-animation record that
//! external drivers use to sequence turns.

use vstd::prelude::*;
use crate::color::Color;

verus! {

/// The sense of a quarter turn: `Right` is clockwise, `Left` counter-clockwise,
/// as seen from outside the cube looking at the turned face.
#[derive(Copy, Clone, Debug, PartialEq, Eq, Structural)]
pub enum RotationDirection {
    Right,
    Left,
}

/// How far a turn shifts the four surrounding edge rows along the neighbor
/// cycle: 3 positions for a clockwise turn, 1 for a counter-clockwise one
/// (the two are complementary modulo 4).
pub open spec fn spec_jump_offset(d: RotationDirection) -> int {
    match d {
        RotationDirection::Right => 3,
        RotationDirection::Left => 1,
    }
}

/// The direction that undoes `d`.
pub open spec fn spec_reverse(d: RotationDirection) -> RotationDirection {
    match d {
        RotationDirection::Right => RotationDirection::Left,
        RotationDirection::Left => RotationDirection::Right,
    }
}

impl RotationDirection {
    /// The jump offset along the 4-cycle of neighbors for this direction.
    pub fn jump_offset(self) -> (r: usize)
        ensures
            r == spec_jump_offset(self),
    {
        match self {
            RotationDirection::Right => 3,
            RotationDirection::Left => 1,
        }
    }
}

/// One of the three coordinate axes a face rotates about.
#[derive(Copy, Clone, Debug, PartialEq, Eq, Structural)]
pub enum RotationAxis {
    XAxis,
    YAxis,
    ZAxis,
}

/// A queued quarter turn together with the animation progress of its
/// visual playback. The core never reads `step`; it belongs to whatever
/// driver sequences calls to the turn operation.
#[derive(Copy, Clone, Debug)]
pub struct RotationAnimation {
    pub side: Color,
    pub direction: RotationDirection,
    pub step: usize,
}

impl RotationAnimation {
    /// A freshly queued turn, with its playback not yet started.
    pub fn new(side: Color, direction: RotationDirection) -> (r: Self)
        ensures
            r.side == side,
            r.direction == direction,
            r.step == 0,
    {
        Self { side, direction, step: 0 }
    }
}

} // verus!
