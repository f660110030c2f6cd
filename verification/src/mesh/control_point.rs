//! Control points.

use vstd::prelude::*;

verus! {

/// An index of a control point.
#[derive(Clone, Copy, Debug, PartialEq, Eq, Hash, Structural)]
pub struct ControlPointIndex(pub u32);

impl ControlPointIndex {
    /// Creates the index of a control point.
    pub fn new(index: u32) -> (r: ControlPointIndex)
        ensures
            r == ControlPointIndex(index),
    {
        ControlPointIndex(index)
    }

    /// Returns the index as an integer.
    pub fn to_u32(self) -> (r: u32)
        ensures
            r == self.0,
    {
        self.0
    }
}

/// A position in space. Each coordinate is held as the bit pattern of a
/// double-precision value.
#[derive(Clone, Copy, Debug, PartialEq, Eq, Hash, Structural)]
pub struct Position {
    /// The X coordinate.
    pub x: u64,
    /// The Y coordinate.
    pub y: u64,
    /// The Z coordinate.
    pub z: u64,
}

/// The number of control points that a run of coordinates holds: one for
/// every three coordinates. Coordinates left over at the end are ignored.
pub open spec fn control_point_count(coordinates: Seq<u64>) -> int {
    coordinates.len() as int / 3
}

/// The position of the control point with the given index in a run of
/// coordinates, if the run holds that many control points.
pub open spec fn control_point_at(coordinates: Seq<u64>, index: int) -> Option<Position> {
    if 0 <= index < control_point_count(coordinates) {
        Some(
            Position {
                x: coordinates[3 * index],
                y: coordinates[3 * index + 1],
                z: coordinates[3 * index + 2],
            },
        )
    } else {
        None
    }
}

/// The positions of the control points of a mesh, stored as one contiguous
/// run of coordinates.
#[derive(Clone, Debug)]
pub struct ControlPoints {
    coordinates: Vec<u64>,
}

impl View for ControlPoints {
    type V = Seq<u64>;

    closed spec fn view(&self) -> Seq<u64> {
        self.coordinates@
    }
}

impl ControlPoints {
    /// Creates the control points stored in a run of coordinates, three for
    /// each point.
    pub fn new(coordinates: Vec<u64>) -> (r: ControlPoints)
        ensures
            r@ == coordinates@,
    {
        ControlPoints { coordinates }
    }

    /// Returns the number of control points.
    pub fn len(&self) -> (r: usize)
        ensures
            r == control_point_count(self@),
    {
        self.coordinates.len() / 3
    }

    /// Returns the position of a control point, or `None` if the index is out
    /// of range.
    pub fn get(&self, index: ControlPointIndex) -> (r: Option<Position>)
        ensures
            r == control_point_at(self@, index.0 as int),
    {
        let i = index.0 as usize;
        if i >= self.coordinates.len() / 3 {
            return None;
        }
        let base = 3 * i;
        Some(
            Position {
                x: self.coordinates[base],
                y: self.coordinates[base + 1],
                z: self.coordinates[base + 2],
            },
        )
    }
}

} // verus!
