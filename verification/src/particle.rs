use vstd::prelude::*;
use crate::vec2d::Vec2D;

verus! {

/// A point entity: a fixed position, plus a direction and a speed that no
/// current operation reads or updates (they are inert, kept for a future
/// position-integration step).
///
/// `speed` is the IEEE-754 single-precision bit pattern of the speed scalar,
/// like the coordinates of `Vec2D`.
#[derive(Clone, Copy, Debug, PartialEq, Eq, Structural)]
pub struct Particle {
    pub pos: Vec2D,
    pub dir: Vec2D,
    pub speed: u32,
}

impl Particle {
    pub fn new(pos: Vec2D, dir: Vec2D, speed: u32) -> (p: Particle)
        ensures
            p.pos == pos,
            p.dir == dir,
            p.speed == speed,
    {
        Particle { pos, dir, speed }
    }

    /// Read access to the position, the one attribute the draw routine
    /// consumes.
    pub fn get_position(&self) -> (v: Vec2D)
        ensures
            v == self.pos,
    {
        self.pos
    }
}

} // verus!
