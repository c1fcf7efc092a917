//! Fixed-point coordinates, samples and stereo frames.

use vstd::prelude::*;

verus! {

/// The fixed-point value of 1.0: a normalized device coordinate of `NDC_ONE`
/// lies on the edge of the picture.
pub const NDC_ONE: i32 = 65536;

/// The largest magnitude of a sample, half of full scale.
pub const HEADROOM: i32 = 32768;

/// The sample of silence.
pub const SILENCE: i32 = 0;

/// A point in normalized device coordinates, fixed-point.
#[derive(Clone, Copy, Debug, PartialEq, Eq, Structural)]
pub struct NdcPoint {
    pub x: i32,
    pub y: i32,
}

/// One instant of stereo audio.
#[derive(Clone, Copy, Debug, PartialEq, Eq, Structural)]
pub struct Frame {
    pub left: i32,
    pub right: i32,
}

/// `value` cut off at `-limit` and `limit`, its sign kept.
pub open spec fn clamp_magnitude_spec(value: int, limit: int) -> int {
    if value > limit {
        limit
    } else if value < -limit {
        -limit
    } else {
        value
    }
}

/// Half of `value`, rounded towards zero.
pub open spec fn halve_spec(value: int) -> int {
    if value >= 0 {
        value / 2
    } else {
        -((-value) / 2)
    }
}

/// The sample for a coordinate: clipped to magnitude 1.0, then scaled by one half.
pub open spec fn sample_spec(coord: int) -> int {
    halve_spec(clamp_magnitude_spec(coord, NDC_ONE as int))
}

/// The frame for what the projection gave: the x coordinate on the left
/// channel and the y coordinate on the right, or silence on both when the
/// point could not be projected.
pub open spec fn frame_spec(projected: Option<NdcPoint>) -> Frame {
    match projected {
        Some(p) => Frame { left: sample_spec(p.x as int) as i32, right: sample_spec(p.y as int) as i32 },
        None => Frame { left: SILENCE, right: SILENCE },
    }
}

/// Every sample lies within the headroom, whatever the coordinate.
pub proof fn lemma_sample_in_headroom(coord: int)
    ensures
        -(HEADROOM as int) <= sample_spec(coord) <= HEADROOM as int,
{
}

/// Both samples of every frame lie within the headroom.
pub proof fn lemma_frame_in_headroom(projected: Option<NdcPoint>)
    ensures
        -(HEADROOM as int) <= frame_spec(projected).left <= HEADROOM as int,
        -(HEADROOM as int) <= frame_spec(projected).right <= HEADROOM as int,
{
}

/// Clipping changes nothing inside the limit and preserves the sign outside.
pub proof fn lemma_clamp_magnitude(value: int, limit: int)
    requires
        0 <= limit,
    ensures
        -limit <= clamp_magnitude_spec(value, limit) <= limit,
        -limit <= value <= limit ==> clamp_magnitude_spec(value, limit) == value,
        value > limit ==> clamp_magnitude_spec(value, limit) == limit,
        value < -limit ==> clamp_magnitude_spec(value, limit) == -limit,
{
}

/// Cuts `value` off at `-limit` and `limit`.
pub fn clamp_magnitude(value: i32, limit: i32) -> (r: i32)
    requires
        0 <= limit,
    ensures
        r == clamp_magnitude_spec(value as int, limit as int),
{
    if value > limit {
        limit
    } else if value < -limit {
        -limit
    } else {
        value
    }
}

/// Turns a coordinate into a sample: clips it to magnitude 1.0 and halves it.
pub fn to_sample(coord: i32) -> (s: i32)
    ensures
        s == sample_spec(coord as int),
        -HEADROOM <= s <= HEADROOM,
{
    let clipped: i32 = clamp_magnitude(coord, NDC_ONE);
    if clipped >= 0 {
        clipped / 2
    } else {
        let magnitude: i32 = -clipped;
        -(magnitude / 2)
    }
}

/// Turns what the projection gave into a frame; a point that could not be
/// projected gives silence on both channels.
pub fn frame_of(projected: Option<NdcPoint>) -> (f: Frame)
    ensures
        f == frame_spec(projected),
        -HEADROOM <= f.left <= HEADROOM,
        -HEADROOM <= f.right <= HEADROOM,
{
    match projected {
        Some(p) => Frame { left: to_sample(p.x), right: to_sample(p.y) },
        None => Frame { left: SILENCE, right: SILENCE },
    }
}

} // verus!
