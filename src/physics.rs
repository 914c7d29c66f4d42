//! Collision checks between sprites, and between a sprite and a point.
//!
//! Each check first runs a cheap broad phase. It rejects a pair when the centers are
//! farther apart, on either axis, than the sum of the sprites' collision radii. A
//! sprite's collision radius is the larger of its width and height.

use vstd::prelude::*;
use crate::sprite::{Sprite, SpriteCollection};
use crate::vec2::Vec2Int;

verus! {

/// The collision radius of a sprite: the larger of its width and height.
pub open spec fn collision_radius(s: Sprite) -> int {
    if s.rect.w >= s.rect.h {
        s.rect.w as int
    } else {
        s.rect.h as int
    }
}

/// The square of an integer.
pub open spec fn square(v: int) -> int {
    v * v
}

/// The broad phase lets the pair through: on both axes, the squared distance between
/// the centers is at most the squared sum of the collision radii.
pub open spec fn broad_phase_passes(a: Sprite, b: Sprite) -> bool {
    let reach = collision_radius(a) + collision_radius(b);
    let pa = a.rect.spec_center();
    let pb = b.rect.spec_center();
    &&& square(pa.x - pb.x) <= square(reach)
    &&& square(pa.y - pb.y) <= square(reach)
}

/// Two sprites collide: the broad phase lets them through and their rectangles
/// overlap or touch.
pub open spec fn collides(a: Sprite, b: Sprite) -> bool {
    broad_phase_passes(a, b) && a.rect.spec_overlaps(b.rect)
}

/// A sprite collides with a point: on both axes, the squared distance from the
/// sprite's center to the point is at most its squared collision radius.
pub open spec fn collides_with_point(s: Sprite, p: Vec2Int) -> bool {
    let c = s.rect.spec_center();
    &&& square(c.x - p.x) <= square(collision_radius(s))
    &&& square(c.y - p.y) <= square(collision_radius(s))
}

/// The sprites of `list` that collide with `s`, in the order of `list`.
pub open spec fn colliding_sprites(s: Sprite, list: Seq<Sprite>) -> Seq<Sprite> {
    list.filter(|t: Sprite| collides(s, t))
}

fn radius_of(s: &Sprite) -> (r: i128)
    ensures
        r == collision_radius(*s),
{
    let w = s.rect.width();
    let h = s.rect.height();
    if w >= h {
        w as i128
    } else {
        h as i128
    }
}

fn collided(sprite1: &Sprite, sprite2: &Sprite) -> (r: bool)
    ensures
        r == collides(*sprite1, *sprite2),
{
    let reach = radius_of(sprite1) + radius_of(sprite2);
    proof {
        assert(0 <= reach * reach <= 0x4_0000_0000_0000_0000) by (nonlinear_arith)
            requires
                0 <= reach <= 0x2_0000_0000,
        ;
    }
    let threshold = reach * reach;
    let center1 = sprite1.position();
    let center2 = sprite2.position();
    let diff_x = center1.x as i128 - center2.x as i128;
    proof {
        assert(0 <= diff_x * diff_x <= 0x1_0000_0000_0000_0000) by (nonlinear_arith)
            requires
                -0x1_0000_0000 <= diff_x <= 0x1_0000_0000,
        ;
    }
    if diff_x * diff_x > threshold {
        return false;
    }
    let diff_y = center1.y as i128 - center2.y as i128;
    proof {
        assert(0 <= diff_y * diff_y <= 0x1_0000_0000_0000_0000) by (nonlinear_arith)
            requires
                -0x1_0000_0000 <= diff_y <= 0x1_0000_0000,
        ;
    }
    if diff_y * diff_y > threshold {
        return false;
    }
    sprite1.rect.overlaps(&sprite2.rect)
}

/// Checks whether two sprites are touching or overlapping.
pub fn check_for_collision(sprite1: &Sprite, sprite2: &Sprite) -> (r: bool)
    ensures
        r == collides(*sprite1, *sprite2),
{
    collided(sprite1, sprite2)
}

/// Checks whether a point lies within the sprite's collision radius of its center,
/// on both axes.
pub fn check_for_collision_with_point(sprite1: &Sprite, point: &Vec2Int) -> (r: bool)
    ensures
        r == collides_with_point(*sprite1, *point),
{
    let radius = radius_of(sprite1);
    proof {
        assert(0 <= radius * radius <= 0x1_0000_0000_0000_0000) by (nonlinear_arith)
            requires
                0 <= radius <= 0x1_0000_0000,
        ;
    }
    let threshold = radius * radius;
    let c = sprite1.position();
    let diff_x = c.x as i128 - point.x as i128;
    proof {
        assert(0 <= diff_x * diff_x <= 0x1_0000_0000_0000_0000) by (nonlinear_arith)
            requires
                -0x1_0000_0000 <= diff_x <= 0x1_0000_0000,
        ;
    }
    if diff_x * diff_x > threshold {
        return false;
    }
    let diff_y = c.y as i128 - point.y as i128;
    proof {
        assert(0 <= diff_y * diff_y <= 0x1_0000_0000_0000_0000) by (nonlinear_arith)
            requires
                -0x1_0000_0000 <= diff_y <= 0x1_0000_0000,
        ;
    }
    if diff_y * diff_y > threshold {
        return false;
    }
    true
}

/// The sprites of the collection that collide with `sprite`, in collection order.
pub fn check_for_collision_with_collection<'a>(
    sprite: &Sprite,
    list: &'a SpriteCollection,
) -> (r: Vec<&'a Sprite>)
    ensures
        r@.len() == colliding_sprites(*sprite, list@).len(),
        forall|i: int| 0 <= i < r@.len() ==> *r@[i] == colliding_sprites(*sprite, list@)[i],
{
    let v = list.inner();
    let mut r: Vec<&'a Sprite> = Vec::new();
    let mut i: usize = 0;
    while i < v.len()
        invariant
            v@ == list@,
            i <= v@.len(),
            r@.len() == colliding_sprites(*sprite, v@.subrange(0, i as int)).len(),
            forall|j: int|
                0 <= j < r@.len() ==> *r@[j] == colliding_sprites(
                    *sprite,
                    v@.subrange(0, i as int),
                )[j],
        decreases v@.len() - i,
    {
        let t = &v[i];
        proof {
            let pred = |u: Sprite| collides(*sprite, u);
            assert(v@.subrange(0, i + 1) == v@.subrange(0, i as int).push(v@[i as int]));
            v@.subrange(0, i as int).lemma_filter_push(v@[i as int], pred);
        }
        if collided(sprite, t) {
            r.push(t);
        }
        i = i + 1;
    }
    proof {
        assert(v@.subrange(0, v@.len() as int) == v@);
    }
    r
}

proof fn lemma_square_symmetric(d: int)
    ensures
        square(d) == square(-d),
{
    assert(d * d == (-d) * (-d)) by (nonlinear_arith);
}

proof fn lemma_square_monotone(d: int, bound: int)
    requires
        0 <= bound,
    ensures
        -bound <= d <= bound ==> square(d) <= square(bound),
        (d > bound || d < -bound) ==> square(d) > square(bound),
{
    if -bound <= d <= bound {
        if d >= 0 {
            assert(d * d <= bound * bound) by (nonlinear_arith)
                requires
                    0 <= d <= bound,
            ;
        } else {
            assert((-d) * (-d) <= bound * bound) by (nonlinear_arith)
                requires
                    0 < -d <= bound,
            ;
            lemma_square_symmetric(d);
        }
    }
    if d > bound {
        assert(d * d > bound * bound) by (nonlinear_arith)
            requires
                0 <= bound < d,
        ;
    }
    if d < -bound {
        assert((-d) * (-d) > bound * bound) by (nonlinear_arith)
            requires
                0 <= bound < -d,
        ;
        lemma_square_symmetric(d);
    }
}

proof fn lemma_center_within(s: Sprite)
    requires
        s.wf(),
    ensures
        s.rect.x <= s.rect.spec_center().x <= s.rect.x + s.rect.w,
        s.rect.y <= s.rect.spec_center().y <= s.rect.y + s.rect.h,
{
}

/// Collision is symmetric: `a` collides with `b` exactly when `b` collides with `a`.
pub proof fn lemma_collision_symmetric(a: Sprite, b: Sprite)
    ensures
        collides(a, b) == collides(b, a),
{
    let pa = a.rect.spec_center();
    let pb = b.rect.spec_center();
    lemma_square_symmetric(pa.x - pb.x);
    lemma_square_symmetric(pa.y - pb.y);
    assert(pb.x - pa.x == -(pa.x - pb.x));
    assert(pb.y - pa.y == -(pa.y - pb.y));
}

/// Two sprites whose centers are the same point always collide.
pub proof fn lemma_same_center_collides(a: Sprite, b: Sprite)
    requires
        a.wf(),
        b.wf(),
        a.rect.spec_center() == b.rect.spec_center(),
    ensures
        collides(a, b),
{
    lemma_center_within(a);
    lemma_center_within(b);
    let reach = collision_radius(a) + collision_radius(b);
    lemma_square_monotone(0, reach);
}

/// Two sprites whose centers are farther apart, on either axis, than the sum of
/// their collision radii never collide.
pub proof fn lemma_far_apart_never_collides(a: Sprite, b: Sprite)
    requires
        ({
            let reach = collision_radius(a) + collision_radius(b);
            let d = a.rect.spec_center().x - b.rect.spec_center().x;
            let e = a.rect.spec_center().y - b.rect.spec_center().y;
            d > reach || d < -reach || e > reach || e < -reach
        }),
    ensures
        !collides(a, b),
{
    let reach = collision_radius(a) + collision_radius(b);
    lemma_square_monotone(a.rect.spec_center().x - b.rect.spec_center().x, reach);
    lemma_square_monotone(a.rect.spec_center().y - b.rect.spec_center().y, reach);
}

/// The broad phase never rejects well-formed sprites whose rectangles overlap, so
/// for them a collision is exactly an overlap of the rectangles, edges included.
pub proof fn lemma_broad_phase_is_conservative(a: Sprite, b: Sprite)
    requires
        a.wf(),
        b.wf(),
    ensures
        collides(a, b) == a.rect.spec_overlaps(b.rect),
{
    if a.rect.spec_overlaps(b.rect) {
        lemma_center_within(a);
        lemma_center_within(b);
        let reach = collision_radius(a) + collision_radius(b);
        lemma_square_monotone(a.rect.spec_center().x - b.rect.spec_center().x, reach);
        lemma_square_monotone(a.rect.spec_center().y - b.rect.spec_center().y, reach);
    }
}

/// No sprite collides with anything in an empty collection.
pub proof fn lemma_empty_collection_has_no_collision(s: Sprite, list: Seq<Sprite>)
    requires
        list.len() == 0,
    ensures
        colliding_sprites(s, list).len() == 0,
{
    reveal(Seq::filter);
}

} // verus!
