//! Plain geometric values carried through the tree and the event queue.
//!
//! The core never interprets coordinates arithmetically: the host shell maps
//! its native scalar coordinates onto opaque 64-bit words when it calls into
//! the adapter, and maps them back when it consumes window settings or a
//! frame. A word value of `0` stands for the shell's origin coordinate.

use vstd::prelude::*;

verus! {

/// A position, both coordinates given as opaque host coordinate words.
#[derive(Clone, Copy, PartialEq, Eq, Structural, Debug)]
pub struct Point {
    pub x: u64,
    pub y: u64,
}

impl Point {
    pub fn new(x: u64, y: u64) -> (r: Point)
        ensures
            r == (Point { x, y }),
    {
        Point { x, y }
    }

    pub fn x(&self) -> (r: u64)
        ensures
            r == self.x,
    {
        self.x
    }

    pub fn y(&self) -> (r: u64)
        ensures
            r == self.y,
    {
        self.y
    }
}

/// An axis-aligned rectangle: origin plus extent, in host coordinate words.
#[derive(Clone, Copy, PartialEq, Eq, Structural, Debug)]
pub struct Rectangle {
    pub x: u64,
    pub y: u64,
    pub width: u64,
    pub height: u64,
}

impl Rectangle {
    pub fn new(x: u64, y: u64, width: u64, height: u64) -> (r: Rectangle)
        ensures
            r == (Rectangle { x, y, width, height }),
    {
        Rectangle { x, y, width, height }
    }
}

/// The size constraint read from a window's root entity: the extent the
/// host shell should give the window on creation.
#[derive(Clone, Copy, PartialEq, Eq, Structural, Debug)]
pub struct Constraint {
    pub width: u64,
    pub height: u64,
}

impl Constraint {
    pub fn new(width: u64, height: u64) -> (r: Constraint)
        ensures
            r == (Constraint { width, height }),
    {
        Constraint { width, height }
    }

    pub fn width(&self) -> (r: u64)
        ensures
            r == self.width,
    {
        self.width
    }

    pub fn height(&self) -> (r: u64)
        ensures
            r == self.height,
    {
        self.height
    }
}

/// A scroll offset property, in host coordinate words.
#[derive(Clone, Copy, PartialEq, Eq, Structural, Debug)]
pub struct Offset {
    pub x: u64,
    pub y: u64,
}

impl Default for Offset {
    /// The neutral offset: no scrolling in either direction.
    fn default() -> (r: Offset)
        ensures
            r == (Offset { x: 0u64, y: 0u64 }),
    {
        Offset { x: 0, y: 0 }
    }
}

} // verus!
