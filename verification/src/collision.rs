//! Closest-point collision test between a circle and an axis-aligned
//! rectangle, and the classification of which face was struck.

use vstd::prelude::*;
use crate::num::iabs;
use crate::num::imax;
use crate::num::imin;

verus! {

/// Which kind of face of a rectangle the ball struck.  `HorizontalEdge` means
/// a horizontal face (top or bottom) was hit and the vertical velocity
/// component must flip; `VerticalEdge` means a vertical face (left or right)
/// was hit and the horizontal component must flip; `Both` flips both.
#[derive(PartialEq, Eq, Structural, Clone, Copy, Debug)]
pub enum Edge {
    HorizontalEdge,
    VerticalEdge,
    Both,
}

/// A side of a rectangle.
#[derive(PartialEq, Eq, Structural, Clone, Copy, Debug)]
pub enum Part {
    Left,
    Right,
    Top,
    Bottom,
}

/// The coordinate of the interval `[lo, lo + extent]` closest to `c`, one
/// axis of clamping the ball's center into a rectangle.
pub open spec fn closest_coord(c: int, lo: int, extent: int) -> int {
    imin(imax(c, lo), lo + extent)
}

/// Squared distance from the circle's center to the point of the rectangle
/// closest to it.  The circle is given by the top-left corner of its bounding
/// box and its radius, so its center is `(ball_x + radius, ball_y + radius)`.
pub open spec fn dist_sq(
    x: int,
    y: int,
    width: int,
    height: int,
    ball_x: int,
    ball_y: int,
    radius: int,
) -> int {
    let cx = ball_x + radius;
    let cy = ball_y + radius;
    let dx = cx - closest_coord(cx, x, width);
    let dy = cy - closest_coord(cy, y, height);
    dx * dx + dy * dy
}

/// The collision outcome: the circle and the rectangle collide exactly when
/// the squared closest-point distance is below `radius * radius`.  A hit on a
/// face is classified by where the center stands relative to the rectangle,
/// with a one-pixel slack that keeps a hit near a corner from being read as
/// both faces at once.  A center so deep inside the rectangle (or so exactly
/// on its diagonal) that neither face test holds is reported as `Both`: that
/// is the deterministic rule this library fixes for the degenerate case.
pub open spec fn detect_spec(
    x: int,
    y: int,
    width: int,
    height: int,
    ball_x: int,
    ball_y: int,
    radius: int,
) -> Option<Edge> {
    let cx = ball_x + radius;
    let cy = ball_y + radius;
    let dx = cx - closest_coord(cx, x, width);
    let dy = cy - closest_coord(cy, y, height);
    if dx * dx + dy * dy < radius * radius {
        let vertical_collision = iabs(dx) < radius - 1 && iabs(dy) > 1;
        let horizontal_collision = iabs(dy) < radius - 1 && iabs(dx) > 1;
        if vertical_collision && horizontal_collision {
            Some(Edge::Both)
        } else if vertical_collision {
            Some(Edge::HorizontalEdge)
        } else if horizontal_collision {
            Some(Edge::VerticalEdge)
        } else {
            Some(Edge::Both)
        }
    } else {
        None
    }
}

} // verus!
