//! Plain positional value types shared by the display model.

use vstd::prelude::*;

verus! {

/// A two-dimensional integer position.
#[derive(Clone, Copy, Debug, PartialEq, Eq, Structural)]
pub struct Position2D {
    pub x: i32,
    pub y: i32,
}

/// A three-dimensional integer position.
#[derive(Clone, Copy, Debug, PartialEq, Eq, Structural)]
pub struct Position3D {
    pub x: i32,
    pub y: i32,
    pub z: i32,
}

impl Position2D {
    pub fn new(x: i32, y: i32) -> (p: Position2D)
        ensures
            p.x == x,
            p.y == y,
    {
        Position2D { x, y }
    }
}

impl Position3D {
    pub fn new(x: i32, y: i32, z: i32) -> (p: Position3D)
        ensures
            p.x == x,
            p.y == y,
            p.z == z,
    {
        Position3D { x, y, z }
    }
}

} // verus!
