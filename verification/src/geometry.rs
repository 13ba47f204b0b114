//! Axis-aligned obstacles of the arena: plain rectangles for the walls and the
//! paddle's swept area, and bricks, which are rectangles with a broken flag.

use vstd::prelude::*;

verus! {

/// Mathematical image of a rectangle: top-left corner and extent, in pixels.
pub ghost struct RectModel {
    pub x: int,
    pub y: int,
    pub width: int,
    pub height: int,
}

/// An axis-aligned rectangular obstacle.
#[derive(Clone, Copy, Debug)]
pub struct Rectangle {
    pub x: i64,
    pub y: i64,
    pub height: i64,
    pub width: i64,
}

impl View for Rectangle {
    type V = RectModel;

    open spec fn view(&self) -> RectModel {
        RectModel {
            x: self.x as int,
            y: self.y as int,
            width: self.width as int,
            height: self.height as int,
        }
    }
}

impl Rectangle {
    /// A rectangle with the given top-left corner and extent.
    pub fn new(x: i64, y: i64, width: i64, height: i64) -> (r: Rectangle)
        ensures
            r@ == (RectModel {
                x: x as int,
                y: y as int,
                width: width as int,
                height: height as int,
            }),
    {
        Rectangle { x, y, height, width }
    }
}

/// Mathematical image of a brick: its rectangle and whether it is broken.
pub ghost struct BrickModel {
    pub x: int,
    pub y: int,
    pub width: int,
    pub height: int,
    pub state: bool,
}

/// A destructible brick.  `state` is true once the ball has broken it; a
/// broken brick no longer takes part in collision testing and is skipped by
/// the renderer, but it is never removed from the grid.
#[derive(Clone, Copy, Debug)]
pub struct Brick {
    pub x: i64,
    pub y: i64,
    pub height: i64,
    pub width: i64,
    pub state: bool,
}

impl View for Brick {
    type V = BrickModel;

    open spec fn view(&self) -> BrickModel {
        BrickModel {
            x: self.x as int,
            y: self.y as int,
            width: self.width as int,
            height: self.height as int,
            state: self.state,
        }
    }
}

impl Brick {
    /// A brick with the given rectangle and broken flag.
    pub fn new(x: i64, y: i64, height: i64, width: i64, state: bool) -> (b: Brick)
        ensures
            b@ == (BrickModel {
                x: x as int,
                y: y as int,
                width: width as int,
                height: height as int,
                state: state,
            }),
    {
        Brick { height, state, width, x, y }
    }
}

} // verus!
