//! The vertex record that flows through the pipeline: model-space
//! attributes, plus the screen-space fields that the transform stage fills.
use vstd::prelude::*;
use crate::color::Color;
use crate::geometry::{Vec2, Vec3};

verus! {

#[derive(Clone, Copy, Debug, PartialEq, Eq, Structural)]
pub struct Vertex {
    pub position: Vec3,
    pub normal: Vec3,
    pub tex_coords: Vec2,
    pub color: Color,
    pub transformed_position: Vec3,
    pub transformed_normal: Vec3,
}

impl Vertex {
    /// A model-space vertex; the transformed fields start at zero and are
    /// populated by the vertex transform stage.
    pub fn new(position: Vec3, normal: Vec3, tex_coords: Vec2, color: Color) -> (v: Vertex)
        ensures
            v.position == position,
            v.normal == normal,
            v.tex_coords == tex_coords,
            v.color == color,
            v.transformed_position == (Vec3 { x: 0, y: 0, z: 0 }),
            v.transformed_normal == (Vec3 { x: 0, y: 0, z: 0 }),
    {
        Vertex {
            position,
            normal,
            tex_coords,
            color,
            transformed_position: Vec3 { x: 0, y: 0, z: 0 },
            transformed_normal: Vec3 { x: 0, y: 0, z: 0 },
        }
    }
}

} // verus!
