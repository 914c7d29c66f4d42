//! Cardinal directions and 2D integer vectors.
//!
//! Conversions from a [`Direction`] assume that East is positive-x and South is positive-y.

use vstd::prelude::*;

verus! {

/// A cardinal direction in a 2D plane.
#[derive(Debug, Clone, Copy, PartialEq, Eq, Structural, PartialOrd, Ord, Hash)]
pub enum Direction {
    /// North, or `(0, -1)`.
    North,
    /// South, or `(0, 1)`.
    South,
    /// East, or `(1, 0)`.
    East,
    /// West, or `(-1, 0)`.
    West,
}

/// The direction flipped around the x-axis: East and West swap, North and South stay.
pub open spec fn spec_flip_x(d: Direction) -> Direction {
    match d {
        Direction::East => Direction::West,
        Direction::West => Direction::East,
        _ => d,
    }
}

/// The direction flipped around the y-axis: North and South swap, East and West stay.
pub open spec fn spec_flip_y(d: Direction) -> Direction {
    match d {
        Direction::North => Direction::South,
        Direction::South => Direction::North,
        _ => d,
    }
}

/// The opposite direction.
pub open spec fn spec_opposite(d: Direction) -> Direction {
    match d {
        Direction::North => Direction::South,
        Direction::South => Direction::North,
        Direction::East => Direction::West,
        Direction::West => Direction::East,
    }
}

impl Direction {
    /// Flips this `Direction` around both the x- and y-axes.
    pub fn flipped(self) -> (r: Direction)
        ensures
            r == spec_opposite(self),
    {
        self.flip_x().flip_y()
    }

    /// Flips this `Direction` around the x-axis.
    pub fn flip_x(self) -> (r: Direction)
        ensures
            r == spec_flip_x(self),
    {
        match self {
            Direction::East => Direction::West,
            Direction::West => Direction::East,
            v => v,
        }
    }

    /// Flips this `Direction` around the y-axis.
    pub fn flip_y(self) -> (r: Direction)
        ensures
            r == spec_flip_y(self),
    {
        match self {
            Direction::North => Direction::South,
            Direction::South => Direction::North,
            v => v,
        }
    }

    /// The opposite direction; the same as [`Direction::flipped`].
    pub fn neg(self) -> (r: Direction)
        ensures
            r == spec_opposite(self),
    {
        self.flipped()
    }

    /// The unit vector of this direction scaled by `k`.
    pub fn mul(self, k: i32) -> (r: Vec2Int)
        requires
            Vec2Int::spec_from_direction(self).mul_ok(k),
        ensures
            r == Vec2Int::spec_from_direction(self).spec_mul(k),
    {
        Vec2Int::from(self).mul(k)
    }
}

/// The unit vector of a direction, as a pair of integers.
pub open spec fn spec_unit(d: Direction) -> (int, int) {
    match d {
        Direction::North => (0, -1),
        Direction::South => (0, 1),
        Direction::East => (1, 0),
        Direction::West => (-1, 0),
    }
}

/// Integer division rounded toward zero, as Rust's `/` does on integers.
///
/// For `a >= 0` the Euclidean quotient `a / b` already rounds toward zero, for either sign of `b`.
pub open spec fn trunc_div(a: int, b: int) -> int {
    if a >= 0 {
        a / b
    } else {
        -((-a) / b)
    }
}

/// Whether an integer fits in an `i32`.
pub open spec fn fits_i32(v: int) -> bool {
    i32::MIN <= v <= i32::MAX
}

/// A pair of `i32`s representing a location or direction in the 2D plane.
#[derive(Debug, Clone, Copy, PartialEq, Eq, Structural, Hash)]
pub struct Vec2Int {
    /// The x component of the vector.
    pub x: i32,
    /// The y component of the vector.
    pub y: i32,
}

impl Vec2Int {
    /// The vector with the given components.
    pub open spec fn spec_new(x: int, y: int) -> Vec2Int {
        Vec2Int { x: x as i32, y: y as i32 }
    }

    /// The negation is representable.
    pub open spec fn neg_ok(self) -> bool {
        self.x != i32::MIN && self.y != i32::MIN
    }

    /// The component-wise negation.
    pub open spec fn spec_neg(self) -> Vec2Int {
        Vec2Int::spec_new(-self.x, -self.y)
    }

    /// The component-wise sum is representable.
    pub open spec fn add_ok(self, rhs: Vec2Int) -> bool {
        fits_i32(self.x + rhs.x) && fits_i32(self.y + rhs.y)
    }

    /// The component-wise sum.
    pub open spec fn spec_add(self, rhs: Vec2Int) -> Vec2Int {
        Vec2Int::spec_new(self.x + rhs.x, self.y + rhs.y)
    }

    /// Every step of `-(-self + rhs)` is representable.
    pub open spec fn sub_ok(self, rhs: Vec2Int) -> bool {
        &&& self.neg_ok()
        &&& self.spec_neg().add_ok(rhs)
        &&& self.spec_neg().spec_add(rhs).neg_ok()
    }

    /// The difference, defined as `-(-self + rhs)`.
    pub open spec fn spec_sub(self, rhs: Vec2Int) -> Vec2Int {
        self.spec_neg().spec_add(rhs).spec_neg()
    }

    /// The scaled vector is representable.
    pub open spec fn mul_ok(self, k: i32) -> bool {
        fits_i32(self.x * k) && fits_i32(self.y * k)
    }

    /// The vector scaled by `k`.
    pub open spec fn spec_mul(self, k: i32) -> Vec2Int {
        Vec2Int::spec_new(self.x * k, self.y * k)
    }

    /// The divided vector is representable: `k` is not zero, and no component is
    /// `i32::MIN` divided by `-1`.
    pub open spec fn div_ok(self, k: i32) -> bool {
        k != 0 && !(k == -1 && (self.x == i32::MIN || self.y == i32::MIN))
    }

    /// The vector divided by `k`, each component rounded toward zero.
    pub open spec fn spec_div(self, k: i32) -> Vec2Int {
        Vec2Int::spec_new(trunc_div(self.x as int, k as int), trunc_div(self.y as int, k as int))
    }

    /// The squared magnitude, as a mathematical integer.
    pub open spec fn spec_sq_magnitude(self) -> int {
        self.x * self.x + self.y * self.y
    }

    /// The vector of a direction.
    pub open spec fn spec_from_direction(d: Direction) -> Vec2Int {
        Vec2Int::spec_new(spec_unit(d).0, spec_unit(d).1)
    }

    /// Creates a new `Vec2Int` with the given x- and y-values.
    pub fn new(x: i32, y: i32) -> (r: Vec2Int)
        ensures
            r.x == x,
            r.y == y,
    {
        Vec2Int { x, y }
    }

    /// Gets the squared magnitude of the vector.
    ///
    /// Useful for comparisons as it is faster to calculate than the magnitude.
    pub fn sq_magnitude(self) -> (r: i32)
        requires
            fits_i32(self.spec_sq_magnitude()),
        ensures
            r == self.spec_sq_magnitude(),
    {
        proof {
            assert(0 <= self.x * self.x && 0 <= self.y * self.y) by (nonlinear_arith);
        }
        self.x * self.x + self.y * self.y
    }

    /// Gets the squared distance from this vector to `rhs`.
    pub fn sq_dist(self, rhs: Vec2Int) -> (r: i32)
        requires
            self.sub_ok(rhs),
            fits_i32(self.spec_sub(rhs).spec_sq_magnitude()),
        ensures
            r == self.spec_sub(rhs).spec_sq_magnitude(),
            r == (self.x - rhs.x) * (self.x - rhs.x) + (self.y - rhs.y) * (self.y - rhs.y),
    {
        self.sub(rhs).sq_magnitude()
    }

    /// The component-wise negation.
    pub fn neg(self) -> (r: Vec2Int)
        requires
            self.neg_ok(),
        ensures
            r == self.spec_neg(),
            r.x == -self.x,
            r.y == -self.y,
    {
        Vec2Int { x: -self.x, y: -self.y }
    }

    /// The component-wise sum.
    pub fn add(self, rhs: Vec2Int) -> (r: Vec2Int)
        requires
            self.add_ok(rhs),
        ensures
            r == self.spec_add(rhs),
            r.x == self.x + rhs.x,
            r.y == self.y + rhs.y,
    {
        Vec2Int { x: self.x + rhs.x, y: self.y + rhs.y }
    }

    /// Adds the unit vector of a direction.
    pub fn add_direction(self, d: Direction) -> (r: Vec2Int)
        requires
            self.add_ok(Vec2Int::spec_from_direction(d)),
        ensures
            r == self.spec_add(Vec2Int::spec_from_direction(d)),
    {
        self.add(Vec2Int::from(d))
    }

    /// The difference `self - rhs`, computed as `-(-self + rhs)`.
    pub fn sub(self, rhs: Vec2Int) -> (r: Vec2Int)
        requires
            self.sub_ok(rhs),
        ensures
            r == self.spec_sub(rhs),
            r.x == self.x - rhs.x,
            r.y == self.y - rhs.y,
    {
        self.neg().add(rhs).neg()
    }

    /// Subtracts the unit vector of a direction, as `-(-self + d)`.
    pub fn sub_direction(self, d: Direction) -> (r: Vec2Int)
        requires
            self.sub_ok(Vec2Int::spec_from_direction(d)),
        ensures
            r == self.spec_sub(Vec2Int::spec_from_direction(d)),
    {
        self.neg().add_direction(d).neg()
    }

    /// The vector scaled by `k`.
    pub fn mul(self, k: i32) -> (r: Vec2Int)
        requires
            self.mul_ok(k),
        ensures
            r == self.spec_mul(k),
            r.x == self.x * k,
            r.y == self.y * k,
    {
        Vec2Int { x: self.x * k, y: self.y * k }
    }

    /// The vector divided by `k`, each component rounded toward zero.
    pub fn div(self, k: i32) -> (r: Vec2Int)
        requires
            self.div_ok(k),
        ensures
            r == self.spec_div(k),
    {
        Vec2Int { x: self.x / k, y: self.y / k }
    }

    /// Replaces `self` with `self + rhs`.
    pub fn add_assign(&mut self, rhs: Vec2Int)
        requires
            old(self).add_ok(rhs),
        ensures
            *final(self) == old(self).spec_add(rhs),
    {
        *self = self.add(rhs);
    }

    /// Replaces `self` with `self - rhs`.
    pub fn sub_assign(&mut self, rhs: Vec2Int)
        requires
            old(self).sub_ok(rhs),
        ensures
            *final(self) == old(self).spec_sub(rhs),
    {
        *self = self.sub(rhs);
    }

    /// Replaces `self` with `self * k`.
    pub fn mul_assign(&mut self, k: i32)
        requires
            old(self).mul_ok(k),
        ensures
            *final(self) == old(self).spec_mul(k),
    {
        *self = self.mul(k);
    }

    /// Replaces `self` with `self / k`.
    pub fn div_assign(&mut self, k: i32)
        requires
            old(self).div_ok(k),
        ensures
            *final(self) == old(self).spec_div(k),
    {
        *self = self.div(k);
    }

    /// Whether the components equal those of the pair `(x, y)`.
    pub fn eq_tuple(&self, other: &(i32, i32)) -> (r: bool)
        ensures
            r == (self.x == other.0 && self.y == other.1),
    {
        self.x == other.0 && self.y == other.1
    }
}

impl Default for Vec2Int {
    fn default() -> (r: Vec2Int)
        ensures
            r.x == 0 && r.y == 0,
    {
        Vec2Int { x: 0, y: 0 }
    }
}

impl From<(i32, i32)> for Vec2Int {
    fn from(v: (i32, i32)) -> (r: Vec2Int) {
        Vec2Int { x: v.0, y: v.1 }
    }
}

impl vstd::std_specs::convert::FromSpecImpl<(i32, i32)> for Vec2Int {
    open spec fn obeys_from_spec() -> bool {
        true
    }

    open spec fn from_spec(v: (i32, i32)) -> Vec2Int {
        Vec2Int { x: v.0, y: v.1 }
    }
}

impl From<Vec2Int> for (i32, i32) {
    fn from(v: Vec2Int) -> (r: (i32, i32)) {
        (v.x, v.y)
    }
}

impl vstd::std_specs::convert::FromSpecImpl<Vec2Int> for (i32, i32) {
    open spec fn obeys_from_spec() -> bool {
        true
    }

    open spec fn from_spec(v: Vec2Int) -> (i32, i32) {
        (v.x, v.y)
    }
}

impl From<Direction> for Vec2Int {
    fn from(d: Direction) -> (r: Vec2Int) {
        match d {
            Direction::North => Vec2Int { x: 0, y: -1 },
            Direction::South => Vec2Int { x: 0, y: 1 },
            Direction::East => Vec2Int { x: 1, y: 0 },
            Direction::West => Vec2Int { x: -1, y: 0 },
        }
    }
}

impl vstd::std_specs::convert::FromSpecImpl<Direction> for Vec2Int {
    open spec fn obeys_from_spec() -> bool {
        true
    }

    open spec fn from_spec(d: Direction) -> Vec2Int {
        Vec2Int::spec_from_direction(d)
    }
}

/// Subtraction is the negation of the negated left operand plus the right one,
/// `a - b == -(-a + b)`, and this is the component-wise difference.
pub proof fn lemma_sub_is_negated_sum(a: Vec2Int, b: Vec2Int)
    requires
        a.sub_ok(b),
    ensures
        a.spec_sub(b) == a.spec_neg().spec_add(b).spec_neg(),
        a.spec_sub(b) == Vec2Int::spec_new(a.x - b.x, a.y - b.y),
{
}

/// Flipping a direction around both axes is flipping it around the x-axis and then
/// around the y-axis; negating it is the same; and its vector is the negated vector.
pub proof fn lemma_flipped_is_both_flips(d: Direction)
    ensures
        spec_opposite(d) == spec_flip_y(spec_flip_x(d)),
        spec_opposite(d) == spec_flip_x(spec_flip_y(d)),
        Vec2Int::spec_from_direction(spec_opposite(d)) == Vec2Int::spec_from_direction(d).spec_neg(),
{
}

} // verus!
