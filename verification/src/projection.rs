//! Parameters of the dual-eye perspective projection.
//!
//! Each frame the viewer derives, from the console's stereo depth slider,
//! how far apart the two eyes sit, and combines that with a fixed vertical
//! field of view, a fixed screen depth and fixed clip planes. That
//! derivation is exact integer data and lives here, in thousandths of the
//! renderer's unit (and thousandths of a degree for the field of view),
//! as in `mesh`. The renderer converts the parameters to its own floating
//! point and hands them to the platform's off-axis projection routine,
//! which builds the two eye matrices.

use vstd::prelude::*;
use vstd::arithmetic::div_mod::lemma_div_is_ordered;

verus! {

/// Vertical field of view, in thousandths of a degree.
pub const FOV_MILLIDEG: u32 = 40000;

/// Depth at which the screen plane sits, in thousandths.
pub const SCREEN_DEPTH_MILLIS: u32 = 2000;

/// Near clip plane, in thousandths.
pub const NEAR_CLIP_MILLIS: u32 = 10;

/// Far clip plane, in thousandths.
pub const FAR_CLIP_MILLIS: u32 = 100000;

/// Full deflection of the stereo depth slider, in thousandths.
pub const SLIDER_MAX_MILLIS: u32 = 1000;

/// The distance between the two eyes for a given slider position, both in
/// thousandths: half the slider's value, the odd half rounded down.
pub open spec fn interocular_millis(slider: int) -> int {
    slider / 2
}

/// Everything the off-axis projection of one frame is built from, in
/// thousandths: the eye separation for this frame's slider position and
/// the viewer's fixed field of view, screen depth and clip planes.
#[derive(Clone, Copy, PartialEq, Eq, Structural, Debug)]
pub struct StereoParams {
    pub interocular_millis: u32,
    pub fov_millideg: u32,
    pub screen_depth_millis: u32,
    pub near_clip_millis: u32,
    pub far_clip_millis: u32,
}

/// Derives the projection parameters for one frame from the stereo depth
/// slider's position: the eyes sit half the slider value apart, and every
/// other parameter is the viewer's fixed choice.
pub fn stereo_params(slider_millis: u32) -> (p: StereoParams)
    ensures
        p.interocular_millis as int == interocular_millis(slider_millis as int),
        p.fov_millideg == FOV_MILLIDEG,
        p.screen_depth_millis == SCREEN_DEPTH_MILLIS,
        p.near_clip_millis == NEAR_CLIP_MILLIS,
        p.far_clip_millis == FAR_CLIP_MILLIS,
{
    StereoParams {
        interocular_millis: slider_millis / 2,
        fov_millideg: FOV_MILLIDEG,
        screen_depth_millis: SCREEN_DEPTH_MILLIS,
        near_clip_millis: NEAR_CLIP_MILLIS,
        far_clip_millis: FAR_CLIP_MILLIS,
    }
}

/// With the slider at rest the eyes coincide: the interocular distance is
/// zero, so the two eye projections are built from the same displacement.
pub proof fn lemma_no_separation_at_rest()
    ensures
        interocular_millis(0) == 0,
{
}

/// Pushing the slider further never brings the eyes closer: the
/// interocular distance is monotone in the slider's position.
pub proof fn lemma_separation_monotone(a: int, b: int)
    requires
        0 <= a <= b,
    ensures
        interocular_millis(a) <= interocular_millis(b),
{
    lemma_div_is_ordered(a, b, 2);
}

/// The eyes never sit further apart than the slider's own deflection.
pub proof fn lemma_separation_bounded(slider: int)
    requires
        0 <= slider,
    ensures
        0 <= interocular_millis(slider) <= slider,
{
}

} // verus!
