//! How the keyboard drives the camera: which direction it moves in and which
//! way it turns.  The speeds and the time step are applied by the caller.
use vstd::prelude::*;

verus! {

/// One axis of a key pair: +1 when only the positive key is down, -1 when
/// only the negative key is down, 0 when both or neither are.
pub open spec fn axis(negative: bool, positive: bool) -> int {
    (if positive { 1int } else { 0int }) - (if negative { 1int } else { 0int })
}

/// The movement keys held this frame: A and D (left, right), W and S
/// (forward, backward), Q and E (down, up), and left Shift (slow).
#[derive(Clone, Copy, Debug, PartialEq, Eq, Structural)]
pub struct MovementKeys {
    pub left: bool,
    pub right: bool,
    pub forward: bool,
    pub backward: bool,
    pub down: bool,
    pub up: bool,
    pub slow: bool,
}

/// A camera step in camera-local axes, each component -1, 0 or 1 (forward
/// is -z), and whether the speed is halved.
#[derive(Clone, Copy, Debug, PartialEq, Eq, Structural)]
pub struct CameraMove {
    pub x: i8,
    pub y: i8,
    pub z: i8,
    pub half_speed: bool,
}

/// The arrow keys held this frame.
#[derive(Clone, Copy, Debug, PartialEq, Eq, Structural)]
pub struct RotationKeys {
    pub left: bool,
    pub right: bool,
    pub down: bool,
    pub up: bool,
}

/// A camera turn: `yaw` +1 to the left, -1 to the right; `pitch` +1 up,
/// -1 down.
#[derive(Clone, Copy, Debug, PartialEq, Eq, Structural)]
pub struct CameraTurn {
    pub yaw: i8,
    pub pitch: i8,
}

/// The value of one axis for a key pair.
fn axis_value(negative: bool, positive: bool) -> (v: i8)
    ensures
        v == axis(negative, positive),
{
    let mut v: i8 = 0;
    if negative {
        v = v - 1;
    }
    if positive {
        v = v + 1;
    }
    v
}

/// The step the movement keys ask for: x from A and D, y from Q and E, z
/// from W and S, halved speed with Shift; `None` when every pair cancels
/// out, in which case the camera stays where it is.
pub fn move_camera(keys: &MovementKeys) -> (step: Option<CameraMove>)
    ensures
        step is None <==> (axis(keys.left, keys.right) == 0 && axis(keys.down, keys.up) == 0
            && axis(keys.forward, keys.backward) == 0),
        step matches Some(m) ==> {
            &&& m.x == axis(keys.left, keys.right)
            &&& m.y == axis(keys.down, keys.up)
            &&& m.z == axis(keys.forward, keys.backward)
            &&& m.half_speed == keys.slow
        },
{
    let x = axis_value(keys.left, keys.right);
    let z = axis_value(keys.forward, keys.backward);
    let y = axis_value(keys.down, keys.up);
    if x == 0 && y == 0 && z == 0 {
        None
    } else {
        Some(CameraMove { x, y, z, half_speed: keys.slow })
    }
}

/// The turn the arrow keys ask for: yaw from Left and Right, pitch from Up
/// and Down; `None` when both pairs cancel out.
pub fn rotate_camera(keys: &RotationKeys) -> (turn: Option<CameraTurn>)
    ensures
        turn is None <==> (axis(keys.right, keys.left) == 0 && axis(keys.down, keys.up) == 0),
        turn matches Some(t) ==> {
            &&& t.yaw == axis(keys.right, keys.left)
            &&& t.pitch == axis(keys.down, keys.up)
        },
{
    let yaw = axis_value(keys.right, keys.left);
    let pitch = axis_value(keys.down, keys.up);
    if yaw == 0 && pitch == 0 {
        None
    } else {
        Some(CameraTurn { yaw, pitch })
    }
}

/// Each axis of a key pair is -1, 0 or 1; holding both keys of a pair, or
/// neither, cancels out; swapping the two keys of a pair reverses the
/// direction.
pub proof fn lemma_axis_cancels(negative: bool, positive: bool)
    ensures
        -1 <= axis(negative, positive) <= 1,
        negative == positive ==> axis(negative, positive) == 0,
        axis(positive, negative) == -axis(negative, positive),
        axis(negative, positive) == 1 <==> (positive && !negative),
        axis(negative, positive) == -1 <==> (negative && !positive),
{
}

} // verus!
