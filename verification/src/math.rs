//! Plain geometric values carried by position updates.

use vstd::prelude::*;

verus! {

/// A point on the map, in pixels.
#[derive(Debug, Copy, Clone, PartialEq, Eq, Structural)]
pub struct Position {
    pub x: u32,
    pub y: u32,
}

impl Position {
    pub fn new(x: u32, y: u32) -> (r: Self)
        ensures
            r == (Position { x, y }),
    {
        Self { x, y }
    }
}

/// A velocity, in pixels per ten seconds.
#[derive(Debug, Copy, Clone, PartialEq, Eq, Structural)]
pub struct Velocity {
    pub x: i32,
    pub y: i32,
}

impl Velocity {
    pub fn new(x: i32, y: i32) -> (r: Self)
        ensures
            r == (Velocity { x, y }),
    {
        Self { x, y }
    }
}

} // verus!
