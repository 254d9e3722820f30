//! One candidate pixel contribution of a rasterized triangle: the covered
//! pixel, the interpolated attributes, and a depth value for the test.
use vstd::prelude::*;
use crate::color::Color;
use crate::geometry::{Vec2, Vec3};

verus! {

#[derive(Clone, Copy, Debug, PartialEq, Eq, Structural)]
pub struct Fragment {
    /// Covered pixel column.
    pub x: i64,
    /// Covered pixel row.
    pub y: i64,
    /// Interpolated depth, for the framebuffer's depth test.
    pub depth: i64,
    /// Interpolated surface normal.
    pub normal: Vec3,
    /// Interpolated texture coordinates.
    pub tex_coords: Vec2,
    /// Interpolated model-space position, fed to the procedural noise.
    pub vertex_position: Vec3,
    /// Interpolated base color.
    pub color: Color,
    /// Lighting intensity in `[0, SCALE]`.
    pub intensity: i64,
}

} // verus!
