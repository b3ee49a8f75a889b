//! What a scene hands to the renderer: a list of shapes, painted in order.
use crate::common::Color;
use vstd::prelude::*;

verus! {

/// A place or an extent in the plane, each coordinate in millionths of a
/// world unit.
#[derive(Clone, Copy, Debug, PartialEq, Eq)]
pub struct Point {
    pub x: i64,
    pub y: i64,
}

/// Cosine and sine of an angle, in millionths, as the host computed them.
/// A scene holds each to `-1..=1` before it uses it.
#[derive(Clone, Copy, Debug, PartialEq, Eq)]
pub struct Rotation {
    pub cos: i32,
    pub sin: i32,
}

/// One shape for the renderer. A later command is painted over an earlier one.
#[derive(Clone, Copy, Debug, PartialEq, Eq)]
pub enum DrawCommand {
    Circle { center: Point, radius: i64, hollow: bool, thickness: i64, color: Color },
    Arc {
        center: Point,
        radius: i64,
        start_angle: i64,
        end_angle: i64,
        thickness: i64,
        color: Color,
    },
    Line { from: Point, to: Point, thickness: i64, color: Color },
    FilledRect { size: Point, color: Color },
}

impl Rotation {
    /// The rotation by no angle at all.
    pub open spec fn identity() -> Rotation {
        Rotation { cos: 1_000_000, sin: 0 }
    }

    /// The entry of `list` at `index`, or no rotation where the list is too
    /// short to have one.
    pub open spec fn at(list: Seq<Rotation>, index: int) -> Rotation {
        if 0 <= index < list.len() {
            list[index]
        } else {
            Rotation::identity()
        }
    }

    /// Reads `list` at `index`; see [`Rotation::at`].
    pub fn pick(list: &Vec<Rotation>, index: usize) -> (r: Rotation)
        ensures
            r == Rotation::at(list@, index as int),
    {
        if index < list.len() {
            list[index]
        } else {
            Rotation { cos: 1_000_000, sin: 0 }
        }
    }
}

} // verus!
