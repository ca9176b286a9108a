//! Keyboard-driven movement state for the controllable model, in fixed
//! point: the decision of how a set of pressed keys changes the input
//! accumulator. Applying the resulting motion each frame is engine work.

use vstd::prelude::*;
use crate::terrain::Vertex;

verus! {

/// The model's default speed, four world units in millionths.
pub const DEFAULT_SPEED: i64 = 4_000_000;

/// One key press moves the accumulator by one world unit, in millionths.
pub const INPUT_STEP: i64 = 1_000_000;

/// Bound on an input accumulator coordinate so that one more key press
/// cannot overflow.
pub const MAX_ACCUMULATION: i64 = 4_000_000_000_000;

/// The movement state of the controllable model: accumulated directional
/// input, speed, and the position the model walks towards.
#[derive(Clone, Copy, Debug, PartialEq, Eq, Structural)]
pub struct Movable {
    pub accumulation: Vertex,
    pub speed: i64,
    pub target_position: Vertex,
}

impl Movable {
    /// A fresh movement state: the given accumulator, the default speed,
    /// and the origin as target.
    pub fn new(accumulation: Vertex) -> (m: Movable)
        ensures
            m.accumulation == accumulation,
            m.speed == DEFAULT_SPEED,
            m.target_position == (Vertex { x: 0, y: 0, z: 0 }),
    {
        Movable { accumulation, speed: DEFAULT_SPEED, target_position: Vertex { x: 0, y: 0, z: 0 } }
    }
}

/// The cursor decision of one frame: when the right button is pressed the
/// model's walk target becomes the picked ground point, otherwise the state
/// is unchanged. Picking the point itself — casting a ray from the camera
/// through the cursor onto the ground plane — is engine float work.
pub fn update_target(m: Movable, right_pressed: bool, picked: Vertex) -> (r: Movable)
    ensures
        right_pressed ==> r == (Movable { target_position: picked, ..m }),
        !right_pressed ==> r == m,
{
    if right_pressed {
        Movable { target_position: picked, ..m }
    } else {
        m
    }
}

/// Applies one frame of key input to the accumulator: each of the four
/// direction keys moves its axis by one step — forward and back along `z`,
/// left and right along `x` — and the elevation never changes.
pub fn accumulate_input(acc: Vertex, w: bool, s: bool, a: bool, d: bool) -> (r: Vertex)
    requires
        -MAX_ACCUMULATION <= acc.x <= MAX_ACCUMULATION,
        -MAX_ACCUMULATION <= acc.z <= MAX_ACCUMULATION,
    ensures
        r.x == acc.x - (if a { INPUT_STEP as int } else { 0 }) + (if d { INPUT_STEP as int } else { 0 }),
        r.y == acc.y,
        r.z == acc.z - (if w { INPUT_STEP as int } else { 0 }) + (if s { INPUT_STEP as int } else { 0 }),
{
    let mut x: i64 = acc.x;
    let mut z: i64 = acc.z;
    if w {
        z = z - INPUT_STEP;
    }
    if s {
        z = z + INPUT_STEP;
    }
    if a {
        x = x - INPUT_STEP;
    }
    if d {
        x = x + INPUT_STEP;
    }
    Vertex { x, y: acc.y, z }
}

} // verus!
