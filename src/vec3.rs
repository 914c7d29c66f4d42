//! 3D integer vectors.

use vstd::prelude::*;
use crate::vec2::{fits_i32, trunc_div};

verus! {

/// A triple of `i32`s representing a location or direction in 3D space.
#[derive(Debug, Clone, Copy, PartialEq, Eq, Structural, Hash)]
pub struct Vec3Int {
    /// The x component of the vector.
    pub x: i32,
    /// The y component of the vector.
    pub y: i32,
    /// The z component of the vector.
    pub z: i32,
}

impl Vec3Int {
    /// The vector with the given components.
    pub open spec fn spec_new(x: int, y: int, z: int) -> Vec3Int {
        Vec3Int { x: x as i32, y: y as i32, z: z as i32 }
    }

    /// The negation is representable.
    pub open spec fn neg_ok(self) -> bool {
        self.x != i32::MIN && self.y != i32::MIN && self.z != i32::MIN
    }

    /// The component-wise negation.
    pub open spec fn spec_neg(self) -> Vec3Int {
        Vec3Int::spec_new(-self.x, -self.y, -self.z)
    }

    /// The component-wise sum is representable.
    pub open spec fn add_ok(self, rhs: Vec3Int) -> bool {
        fits_i32(self.x + rhs.x) && fits_i32(self.y + rhs.y) && fits_i32(self.z + rhs.z)
    }

    /// The component-wise sum.
    pub open spec fn spec_add(self, rhs: Vec3Int) -> Vec3Int {
        Vec3Int::spec_new(self.x + rhs.x, self.y + rhs.y, self.z + rhs.z)
    }

    /// Every step of `-(-self + rhs)` is representable.
    pub open spec fn sub_ok(self, rhs: Vec3Int) -> bool {
        &&& self.neg_ok()
        &&& self.spec_neg().add_ok(rhs)
        &&& self.spec_neg().spec_add(rhs).neg_ok()
    }

    /// The difference, defined as `-(-self + rhs)`.
    pub open spec fn spec_sub(self, rhs: Vec3Int) -> Vec3Int {
        self.spec_neg().spec_add(rhs).spec_neg()
    }

    /// The scaled vector is representable.
    pub open spec fn mul_ok(self, k: i32) -> bool {
        fits_i32(self.x * k) && fits_i32(self.y * k) && fits_i32(self.z * k)
    }

    /// The vector scaled by `k`.
    pub open spec fn spec_mul(self, k: i32) -> Vec3Int {
        Vec3Int::spec_new(self.x * k, self.y * k, self.z * k)
    }

    /// The divided vector is representable: `k` is not zero, and no component is
    /// `i32::MIN` divided by `-1`.
    pub open spec fn div_ok(self, k: i32) -> bool {
        k != 0 && !(k == -1 && (self.x == i32::MIN || self.y == i32::MIN || self.z == i32::MIN))
    }

    /// The vector divided by `k`, each component rounded toward zero.
    pub open spec fn spec_div(self, k: i32) -> Vec3Int {
        Vec3Int::spec_new(
            trunc_div(self.x as int, k as int),
            trunc_div(self.y as int, k as int),
            trunc_div(self.z as int, k as int),
        )
    }

    /// The squared magnitude, as a mathematical integer.
    pub open spec fn spec_sq_magnitude(self) -> int {
        self.x * self.x + self.y * self.y + self.z * self.z
    }

    /// Creates a new `Vec3Int` with the given x-, y- and z-values.
    pub fn new(x: i32, y: i32, z: i32) -> (r: Vec3Int)
        ensures
            r.x == x,
            r.y == y,
            r.z == z,
    {
        Vec3Int { x, y, z }
    }

    /// Gets the squared magnitude of the vector.
    ///
    /// Useful for comparisons as it is faster to calculate than the magnitude.
    pub fn sq_magnitude(self) -> (r: i32)
        requires
            fits_i32(self.spec_sq_magnitude()),
        ensures
            r == self.spec_sq_magnitude(),
    {
        proof {
            assert(0 <= self.x * self.x && 0 <= self.y * self.y && 0 <= self.z * self.z)
                by (nonlinear_arith);
        }
        self.x * self.x + self.y * self.y + self.z * self.z
    }

    /// Gets the squared distance from this vector to `rhs`.
    pub fn sq_dist(self, rhs: Vec3Int) -> (r: i32)
        requires
            self.sub_ok(rhs),
            fits_i32(self.spec_sub(rhs).spec_sq_magnitude()),
        ensures
            r == self.spec_sub(rhs).spec_sq_magnitude(),
            r == (self.x - rhs.x) * (self.x - rhs.x) + (self.y - rhs.y) * (self.y - rhs.y) + (
            self.z - rhs.z) * (self.z - rhs.z),
    {
        self.sub(rhs).sq_magnitude()
    }

    /// The component-wise negation.
    pub fn neg(self) -> (r: Vec3Int)
        requires
            self.neg_ok(),
        ensures
            r == self.spec_neg(),
    {
        Vec3Int { x: -self.x, y: -self.y, z: -self.z }
    }

    /// The component-wise sum.
    pub fn add(self, rhs: Vec3Int) -> (r: Vec3Int)
        requires
            self.add_ok(rhs),
        ensures
            r == self.spec_add(rhs),
    {
        Vec3Int { x: self.x + rhs.x, y: self.y + rhs.y, z: self.z + rhs.z }
    }

    /// The difference `self - rhs`, computed as `-(-self + rhs)`.
    pub fn sub(self, rhs: Vec3Int) -> (r: Vec3Int)
        requires
            self.sub_ok(rhs),
        ensures
            r == self.spec_sub(rhs),
            r.x == self.x - rhs.x,
            r.y == self.y - rhs.y,
            r.z == self.z - rhs.z,
    {
        self.neg().add(rhs).neg()
    }

    /// The vector scaled by `k`.
    pub fn mul(self, k: i32) -> (r: Vec3Int)
        requires
            self.mul_ok(k),
        ensures
            r == self.spec_mul(k),
    {
        Vec3Int { x: self.x * k, y: self.y * k, z: self.z * k }
    }

    /// The vector divided by `k`, each component rounded toward zero.
    pub fn div(self, k: i32) -> (r: Vec3Int)
        requires
            self.div_ok(k),
        ensures
            r == self.spec_div(k),
    {
        Vec3Int { x: self.x / k, y: self.y / k, z: self.z / k }
    }

    /// Replaces `self` with `self + rhs`.
    pub fn add_assign(&mut self, rhs: Vec3Int)
        requires
            old(self).add_ok(rhs),
        ensures
            *final(self) == old(self).spec_add(rhs),
    {
        *self = self.add(rhs);
    }

    /// Replaces `self` with `self - rhs`.
    pub fn sub_assign(&mut self, rhs: Vec3Int)
        requires
            old(self).sub_ok(rhs),
        ensures
            *final(self) == old(self).spec_sub(rhs),
    {
        *self = self.sub(rhs);
    }

    /// Replaces `self` with `self * k`.
    pub fn mul_assign(&mut self, k: i32)
        requires
            old(self).mul_ok(k),
        ensures
            *final(self) == old(self).spec_mul(k),
    {
        *self = self.mul(k);
    }

    /// Replaces `self` with `self / k`.
    pub fn div_assign(&mut self, k: i32)
        requires
            old(self).div_ok(k),
        ensures
            *final(self) == old(self).spec_div(k),
    {
        *self = self.div(k);
    }

    /// Whether the components equal those of the triple `(x, y, z)`.
    pub fn eq_tuple(&self, other: &(i32, i32, i32)) -> (r: bool)
        ensures
            r == (self.x == other.0 && self.y == other.1 && self.z == other.2),
    {
        self.x == other.0 && self.y == other.1 && self.z == other.2
    }
}

impl Default for Vec3Int {
    fn default() -> (r: Vec3Int)
        ensures
            r.x == 0 && r.y == 0 && r.z == 0,
    {
        Vec3Int { x: 0, y: 0, z: 0 }
    }
}

impl From<(i32, i32, i32)> for Vec3Int {
    fn from(v: (i32, i32, i32)) -> (r: Vec3Int) {
        Vec3Int { x: v.0, y: v.1, z: v.2 }
    }
}

impl vstd::std_specs::convert::FromSpecImpl<(i32, i32, i32)> for Vec3Int {
    open spec fn obeys_from_spec() -> bool {
        true
    }

    open spec fn from_spec(v: (i32, i32, i32)) -> Vec3Int {
        Vec3Int { x: v.0, y: v.1, z: v.2 }
    }
}

impl From<Vec3Int> for (i32, i32, i32) {
    fn from(v: Vec3Int) -> (r: (i32, i32, i32)) {
        (v.x, v.y, v.z)
    }
}

impl vstd::std_specs::convert::FromSpecImpl<Vec3Int> for (i32, i32, i32) {
    open spec fn obeys_from_spec() -> bool {
        true
    }

    open spec fn from_spec(v: Vec3Int) -> (i32, i32, i32) {
        (v.x, v.y, v.z)
    }
}

/// Subtraction is the negation of the negated left operand plus the right one,
/// `a - b == -(-a + b)`, and this is the component-wise difference.
pub proof fn lemma_sub_is_negated_sum_3d(a: Vec3Int, b: Vec3Int)
    requires
        a.sub_ok(b),
    ensures
        a.spec_sub(b) == a.spec_neg().spec_add(b).spec_neg(),
        a.spec_sub(b) == Vec3Int::spec_new(a.x - b.x, a.y - b.y, a.z - b.z),
{
}

} // verus!
