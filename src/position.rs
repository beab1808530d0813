//! Logical grid positions.
use vstd::prelude::*;

verus! {

/// A position on the logical grid. `z` is the render layer: it takes no
/// part in equality.
#[derive(Clone, Copy, Debug)]
pub struct Position {
    pub x: i32,
    pub y: i32,
    pub z: i32,
}

impl Position {
    pub fn new(x: i32, y: i32, z: i32) -> (r: Self)
        ensures
            r.x == x && r.y == y && r.z == z,
    {
        Position { x, y, z }
    }

    pub fn new_from2d(x: i32, y: i32) -> (r: Self)
        ensures
            r.x == x && r.y == y && r.z == 0,
    {
        Position { x, y, z: 0 }
    }

    /// Component-wise sum, layer included.
    pub fn add(self, rhs: Position) -> (r: Position)
        requires
            i32::MIN <= self.x + rhs.x <= i32::MAX,
            i32::MIN <= self.y + rhs.y <= i32::MAX,
            i32::MIN <= self.z + rhs.z <= i32::MAX,
        ensures
            r.x == self.x + rhs.x,
            r.y == self.y + rhs.y,
            r.z == self.z + rhs.z,
    {
        Position { x: self.x + rhs.x, y: self.y + rhs.y, z: self.z + rhs.z }
    }
}

impl PartialEq for Position {
    fn eq(&self, other: &Position) -> (r: bool)
        ensures
            r == (self.x == other.x && self.y == other.y),
    {
        self.x == other.x && self.y == other.y
    }
}

impl Eq for Position {}

impl vstd::std_specs::cmp::PartialEqSpecImpl for Position {
    open spec fn obeys_eq_spec() -> bool {
        true
    }

    open spec fn eq_spec(&self, other: &Position) -> bool {
        self.x == other.x && self.y == other.y
    }
}

} // verus!
