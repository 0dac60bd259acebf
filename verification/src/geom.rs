//! Small integer vectors used for placement and clipping: signed points,
//! unsigned extents, and an unsigned 4-component rectangle written as
//! `(x, y, z, w)` where `z` and `w` carry a width and a height.

use vstd::prelude::*;

verus! {

/// A signed pair, used for positions and displacements.
#[derive(Clone, Copy, Debug, PartialEq, Eq, Structural)]
pub struct Vec2i {
    pub x: i32,
    pub y: i32,
}

pub fn vec2i(x: i32, y: i32) -> (r: Vec2i)
    ensures
        r == (Vec2i { x, y }),
{
    Vec2i { x, y }
}

/// An unsigned pair, used for dimensions.
#[derive(Clone, Copy, Debug, PartialEq, Eq, Structural)]
pub struct Vec2u {
    pub x: u32,
    pub y: u32,
}

pub fn vec2u(x: u32, y: u32) -> (r: Vec2u)
    ensures
        r == (Vec2u { x, y }),
{
    Vec2u { x, y }
}

/// An unsigned rectangle: origin `(x, y)`, width `z`, height `w`.
#[derive(Clone, Copy, Debug, PartialEq, Eq, Structural)]
pub struct Vec4u {
    pub x: u32,
    pub y: u32,
    pub z: u32,
    pub w: u32,
}

pub fn vec4u(x: u32, y: u32, z: u32, w: u32) -> (r: Vec4u)
    ensures
        r == (Vec4u { x, y, z, w }),
{
    Vec4u { x, y, z, w }
}

/// A signed rectangle: origin `(x, y)`, width `z`, height `w`.
#[derive(Clone, Copy, Debug, PartialEq, Eq, Structural)]
pub struct Vec4i {
    pub x: i32,
    pub y: i32,
    pub z: i32,
    pub w: i32,
}

pub fn vec4i(x: i32, y: i32, z: i32, w: i32) -> (r: Vec4i)
    ensures
        r == (Vec4i { x, y, z, w }),
{
    Vec4i { x, y, z, w }
}

} // verus!
