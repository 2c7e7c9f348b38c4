//! Axis-aligned rectangles and the collision primitive.
//!
//! The overlap test uses strict inequalities, so rectangles that merely touch
//! along an edge do not intersect; the point-containment test uses inclusive
//! bounds.  That asymmetry is deliberate and is pinned down by the contracts.

use vstd::prelude::*;
use crate::units::{COORD_LIMIT, GEOM_ARG_LIMIT};

verus! {

/// A rectangle in world space: top-left corner, width and height, with the
/// y axis growing downward.
pub ghost struct Rect {
    pub x: int,
    pub y: int,
    pub w: int,
    pub h: int,
}

/// The rectangle with top-left corner `(x, y)`, width `w` and height `h`.
pub open spec fn rect_of(x: int, y: int, w: int, h: int) -> Rect {
    Rect { x, y, w, h }
}

/// Strict axis-aligned overlap: a zero-width touch along an edge is not an
/// intersection.
pub open spec fn rect_intersects(a: Rect, b: Rect) -> bool {
    &&& a.x < b.x + b.w
    &&& a.x + a.w > b.x
    &&& a.y < b.y + b.h
    &&& a.y + a.h > b.y
}

/// Inclusive point containment: points on the boundary are inside.
pub open spec fn rect_contains_point(r: Rect, px: int, py: int) -> bool {
    &&& r.x <= px <= r.x + r.w
    &&& r.y <= py <= r.y + r.h
}

/// All four components are small enough for the raw rectangle tests.
pub open spec fn rect_in_arg_range(r: Rect) -> bool {
    &&& -GEOM_ARG_LIMIT <= r.x <= GEOM_ARG_LIMIT
    &&& -GEOM_ARG_LIMIT <= r.y <= GEOM_ARG_LIMIT
    &&& -GEOM_ARG_LIMIT <= r.w <= GEOM_ARG_LIMIT
    &&& -GEOM_ARG_LIMIT <= r.h <= GEOM_ARG_LIMIT
}

/// A well-formed piece of level geometry: bounded coordinates, non-negative
/// extent.
pub open spec fn platform_wf(r: Rect) -> bool {
    &&& -COORD_LIMIT <= r.x <= COORD_LIMIT
    &&& -COORD_LIMIT <= r.y <= COORD_LIMIT
    &&& 0 <= r.w <= COORD_LIMIT
    &&& 0 <= r.h <= COORD_LIMIT
}

/// Rectangle intersection is symmetric.
pub proof fn lemma_intersects_symmetric(a: Rect, b: Rect)
    ensures
        rect_intersects(a, b) == rect_intersects(b, a),
{
}

/// Rectangles placed exactly edge-to-edge, horizontally or vertically, do not
/// intersect: the overlap between them has zero width.
pub proof fn lemma_edge_touch_does_not_intersect(a: Rect, b: Rect)
    requires
        a.x + a.w == b.x || a.y + a.h == b.y,
    ensures
        !rect_intersects(a, b),
        !rect_intersects(b, a),
{
}

/// A static platform the player can stand on.  Immutable once constructed.
#[derive(Clone, Copy, Debug)]
pub struct Platform {
    pub x: i64,
    pub y: i64,
    pub width: i64,
    pub height: i64,
}

impl View for Platform {
    type V = Rect;

    open spec fn view(&self) -> Rect {
        Rect { x: self.x as int, y: self.y as int, w: self.width as int, h: self.height as int }
    }
}

impl Platform {
    /// Create a new platform.
    pub fn new(x: i64, y: i64, width: i64, height: i64) -> (p: Platform)
        requires
            -COORD_LIMIT <= x <= COORD_LIMIT,
            -COORD_LIMIT <= y <= COORD_LIMIT,
            0 <= width <= COORD_LIMIT,
            0 <= height <= COORD_LIMIT,
        ensures
            p@ == rect_of(x as int, y as int, width as int, height as int),
            platform_wf(p@),
    {
        Platform { x, y, width, height }
    }

    /// Whether the point `(x, y)` lies inside this platform, boundary
    /// included.
    pub fn contains_point(&self, x: i64, y: i64) -> (r: bool)
        requires
            rect_in_arg_range(self@),
            -GEOM_ARG_LIMIT <= x <= GEOM_ARG_LIMIT,
            -GEOM_ARG_LIMIT <= y <= GEOM_ARG_LIMIT,
        ensures
            r == rect_contains_point(self@, x as int, y as int),
    {
        x >= self.x && x <= self.x + self.width && y >= self.y && y <= self.y + self.height
    }

    /// Whether the rectangle at `(x, y)` with size `width` by `height`
    /// strictly overlaps this platform.
    pub fn intersects(&self, x: i64, y: i64, width: i64, height: i64) -> (r: bool)
        requires
            rect_in_arg_range(self@),
            rect_in_arg_range(rect_of(x as int, y as int, width as int, height as int)),
        ensures
            r == rect_intersects(rect_of(x as int, y as int, width as int, height as int), self@),
    {
        x < self.x + self.width && x + width > self.x && y < self.y + self.height && y + height
            > self.y
    }
}

} // verus!
