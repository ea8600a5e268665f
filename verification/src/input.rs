//! Per-frame input decisions.
//!
//! Each frame the viewer reads the pad's key bitmasks and the circle-pad
//! deflection, and decides three things: whether to exit, how far to slide
//! the view, and whether the touch screen is driving the model's rotation.
//! Those decisions are pure functions of the raw values and live here; the
//! render loop only carries them out.

use vstd::prelude::*;

verus! {

/// Bit assigned to the Start button in the pad's key bitmask.
pub const KEY_START: u32 = 0x8;

/// Bit reported in the key bitmask while the touch screen is pressed.
pub const KEY_TOUCH: u32 = 0x100000;

/// Largest raw circle-pad deflection still inside the dead zone. The pad
/// reports full deflection as 127 and the dead zone is a tenth of that on
/// either side of rest, so every integer magnitude up to 12 is inside it.
pub const DEADZONE_MAX: i16 = 12;

/// Whether a raw circle-pad axis value is so close to the rest position
/// that it counts as no input at all.
pub open spec fn in_deadzone(v: int) -> bool {
    -(DEADZONE_MAX as int) <= v && v <= DEADZONE_MAX as int
}

/// A raw circle-pad axis value after dead-zone filtering: zero near rest,
/// unchanged otherwise.
pub open spec fn filtered(v: int) -> int {
    if in_deadzone(v) {
        0
    } else {
        v
    }
}

/// Zeroes a raw circle-pad axis value that lies inside the dead zone and
/// passes every other value through unchanged.
pub fn apply_deadzone(v: i16) -> (r: i16)
    ensures
        r as int == filtered(v as int),
{
    if -DEADZONE_MAX <= v && v <= DEADZONE_MAX {
        0
    } else {
        v
    }
}

/// A value the dead-zone filter has produced passes the filter unchanged:
/// filtering twice is the same as filtering once.
pub proof fn lemma_filtered_idempotent(v: int)
    ensures
        filtered(filtered(v)) == filtered(v),
{
}

/// Everything one frame of input reading yields, as plain values: the keys
/// that went down this frame, the keys still held, and the raw circle-pad
/// deflection on each axis.
#[derive(Clone, Copy, PartialEq, Eq, Structural, Debug)]
pub struct FrameInput {
    pub keys_down: u32,
    pub keys_held: u32,
    pub circle_x: i16,
    pub circle_y: i16,
}

/// What one frame of input asks the render loop to do. The slide fields
/// are dead-zone-filtered raw deflections; the loop scales them to the
/// renderer's units before it moves the view.
#[derive(Clone, Copy, PartialEq, Eq, Structural, Debug)]
pub struct FrameAction {
    pub exit: bool,
    pub slide_x: i16,
    pub slide_z: i16,
    pub rotate: bool,
}

/// Decides what one frame of input asks for: exit when Start went down,
/// slide the view by the dead-zone-filtered circle-pad deflections, and
/// rotate the model while the touch screen is newly or still pressed.
pub fn frame_action(input: &FrameInput) -> (a: FrameAction)
    ensures
        a.exit == (input.keys_down & KEY_START != 0),
        a.slide_x as int == filtered(input.circle_x as int),
        a.slide_z as int == filtered(input.circle_y as int),
        a.rotate == ((input.keys_down | input.keys_held) & KEY_TOUCH != 0),
{
    FrameAction {
        exit: input.keys_down & KEY_START != 0,
        slide_x: apply_deadzone(input.circle_x),
        slide_z: apply_deadzone(input.circle_y),
        rotate: (input.keys_down | input.keys_held) & KEY_TOUCH != 0,
    }
}

} // verus!
