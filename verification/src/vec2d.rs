use vstd::prelude::*;

verus! {

/// An immutable two-dimensional position value.
///
/// Each coordinate is the IEEE-754 single-precision bit pattern of the
/// coordinate, carried as a `u32` so that the renderer's logic treats
/// positions as plain data; the graphics layer reinterprets the bits as
/// floats when it uploads a vertex buffer.
#[derive(Clone, Copy, Debug, PartialEq, Eq, Structural)]
pub struct Vec2D {
    pub x: u32,
    pub y: u32,
}

impl Vec2D {
    pub fn new(x: u32, y: u32) -> (v: Vec2D)
        ensures
            v.x == x,
            v.y == y,
    {
        Vec2D { x, y }
    }
}

} // verus!
