//! Axis-aligned rectangles in screen space, stored as a top-left corner and a size.
//!
//! Positions are kept within `[MIN_POSITION, MAX_POSITION]` and sizes within
//! `[1, MAX_SIZE]`, so that every right or bottom edge fits in an `i32`.

use vstd::prelude::*;
use crate::vec2::Vec2Int;

verus! {

/// The largest coordinate a rectangle's corner or a point may have (`i32::MAX / 2`).
pub const MAX_POSITION: i32 = 1073741823;

/// The smallest coordinate a rectangle's corner or a point may have (`i32::MIN / 2`).
pub const MIN_POSITION: i32 = -1073741824;

/// The largest width or height of a rectangle (`i32::MAX / 2`).
pub const MAX_SIZE: u32 = 1073741823;

/// A coordinate brought into `[MIN_POSITION, MAX_POSITION]`.
pub open spec fn clamp_position(v: int) -> int {
    if v > MAX_POSITION {
        MAX_POSITION as int
    } else if v < MIN_POSITION {
        MIN_POSITION as int
    } else {
        v
    }
}

/// A size brought into `[1, MAX_SIZE]`: an empty side becomes one unit long.
pub open spec fn clamp_size(v: int) -> int {
    if v == 0 {
        1
    } else if v > MAX_SIZE {
        MAX_SIZE as int
    } else {
        v
    }
}

/// Brings a coordinate into `[MIN_POSITION, MAX_POSITION]`.
pub fn clamp_position_exec(v: i64) -> (r: i32)
    ensures
        r == clamp_position(v as int),
{
    if v > MAX_POSITION as i64 {
        MAX_POSITION
    } else if v < MIN_POSITION as i64 {
        MIN_POSITION
    } else {
        v as i32
    }
}

/// Brings a size into `[1, MAX_SIZE]`.
pub fn clamp_size_exec(v: u32) -> (r: u32)
    ensures
        r == clamp_size(v as int),
{
    if v == 0 {
        1
    } else if v > MAX_SIZE {
        MAX_SIZE
    } else {
        v
    }
}

/// An axis-aligned rectangle: top-left corner `(x, y)`, width `w` and height `h`.
///
/// It covers the points from `x` to `x + w` horizontally and from `y` to `y + h`
/// vertically, with y growing downwards.
#[derive(Debug, Clone, Copy, PartialEq, Eq, Structural, Hash)]
pub struct Rect {
    /// The horizontal position of the left edge.
    pub x: i32,
    /// The vertical position of the top edge.
    pub y: i32,
    /// The width.
    pub w: u32,
    /// The height.
    pub h: u32,
}

impl Rect {
    /// The corner lies within the position bounds and the sides within the size bounds.
    pub open spec fn wf(self) -> bool {
        &&& MIN_POSITION <= self.x <= MAX_POSITION
        &&& MIN_POSITION <= self.y <= MAX_POSITION
        &&& 1 <= self.w <= MAX_SIZE
        &&& 1 <= self.h <= MAX_SIZE
    }

    /// The center point, each coordinate clamped as a point's coordinates are.
    pub open spec fn spec_center(self) -> Vec2Int {
        Vec2Int {
            x: clamp_position(self.x + self.w / 2) as i32,
            y: clamp_position(self.y + self.h / 2) as i32,
        }
    }

    /// The rectangle that `from_center` makes.
    pub open spec fn spec_from_center(center: Vec2Int, width: int, height: int) -> Rect {
        let w = clamp_size(width);
        let h = clamp_size(height);
        Rect {
            x: clamp_position(clamp_position(center.x as int) - w / 2) as i32,
            y: clamp_position(clamp_position(center.y as int) - h / 2) as i32,
            w: w as u32,
            h: h as u32,
        }
    }

    /// The rectangle with the same size re-centered on `p`.
    pub open spec fn spec_centered_on(self, p: Vec2Int) -> Rect {
        Rect {
            x: clamp_position(clamp_position(p.x as int) - self.w / 2) as i32,
            y: clamp_position(clamp_position(p.y as int) - self.h / 2) as i32,
            ..self
        }
    }

    /// The two rectangles overlap or touch: their horizontal extents and their
    /// vertical extents both meet, edges included.
    pub open spec fn spec_overlaps(self, other: Rect) -> bool {
        &&& self.x <= other.x + other.w
        &&& other.x <= self.x + self.w
        &&& self.y <= other.y + other.h
        &&& other.y <= self.y + self.h
    }

    /// Creates a rectangle with its top-left corner at `(x, y)`; the corner and
    /// the size are clamped into their bounds.
    pub fn new(x: i32, y: i32, width: u32, height: u32) -> (r: Rect)
        ensures
            r.x == clamp_position(x as int),
            r.y == clamp_position(y as int),
            r.w == clamp_size(width as int),
            r.h == clamp_size(height as int),
            r.wf(),
    {
        Rect {
            x: clamp_position_exec(x as i64),
            y: clamp_position_exec(y as i64),
            w: clamp_size_exec(width),
            h: clamp_size_exec(height),
        }
    }

    /// Creates a rectangle of the given (clamped) size centered on `center`.
    pub fn from_center(center: Vec2Int, width: u32, height: u32) -> (r: Rect)
        ensures
            r == Rect::spec_from_center(center, width as int, height as int),
            r.wf(),
    {
        let mut r = Rect { x: 0, y: 0, w: clamp_size_exec(width), h: clamp_size_exec(height) };
        let p = Vec2Int::new(clamp_position_exec(center.x as i64), clamp_position_exec(center.y as i64));
        r.center_on(p);
        r
    }

    /// The horizontal position of the left edge.
    pub fn x(&self) -> (r: i32)
        ensures
            r == self.x,
    {
        self.x
    }

    /// The vertical position of the top edge.
    pub fn y(&self) -> (r: i32)
        ensures
            r == self.y,
    {
        self.y
    }

    /// The width.
    pub fn width(&self) -> (r: u32)
        ensures
            r == self.w,
    {
        self.w
    }

    /// The height.
    pub fn height(&self) -> (r: u32)
        ensures
            r == self.h,
    {
        self.h
    }

    /// Moves the left edge to `x`, clamped into the position bounds.
    pub fn set_x(&mut self, x: i32)
        ensures
            *final(self) == (Rect { x: clamp_position(x as int) as i32, ..*old(self) }),
    {
        self.x = clamp_position_exec(x as i64);
    }

    /// Moves the top edge to `y`, clamped into the position bounds.
    pub fn set_y(&mut self, y: i32)
        ensures
            *final(self) == (Rect { y: clamp_position(y as int) as i32, ..*old(self) }),
    {
        self.y = clamp_position_exec(y as i64);
    }

    /// The center point: the corner plus half the size, rounded down.
    pub fn center(&self) -> (r: Vec2Int)
        ensures
            r == self.spec_center(),
    {
        Vec2Int::new(
            clamp_position_exec(self.x as i64 + (self.w / 2) as i64),
            clamp_position_exec(self.y as i64 + (self.h / 2) as i64),
        )
    }

    /// Moves the rectangle so that `p` becomes its center; its size is unchanged.
    pub fn center_on(&mut self, p: Vec2Int)
        ensures
            *final(self) == old(self).spec_centered_on(p),
    {
        let cx = clamp_position_exec(p.x as i64);
        let cy = clamp_position_exec(p.y as i64);
        self.x = clamp_position_exec(cx as i64 - (self.w / 2) as i64);
        self.y = clamp_position_exec(cy as i64 - (self.h / 2) as i64);
    }

    /// Whether the two rectangles overlap; rectangles that only share an edge or a
    /// corner count as overlapping.
    pub fn overlaps(&self, other: &Rect) -> (r: bool)
        ensures
            r == self.spec_overlaps(*other),
    {
        let (ax, ay, aw, ah) = (self.x as i64, self.y as i64, self.w as i64, self.h as i64);
        let (bx, by, bw, bh) = (other.x as i64, other.y as i64, other.w as i64, other.h as i64);
        ax <= bx + bw && bx <= ax + aw && ay <= by + bh && by <= ay + ah
    }
}

} // verus!
