//! Sprite geometry and an ordered collection of sprites.
//!
//! A sprite's semantic position is the center of its rectangle. Its size is fixed
//! when it is created; only its position changes afterwards.

use vstd::prelude::*;
use crate::rect::{clamp_position, clamp_position_exec, Rect};
use crate::vec2::Vec2Int;

verus! {

/// The geometry of a sprite: the rectangle it is drawn into and collides with.
#[derive(Debug, Clone, Copy, PartialEq, Eq, Structural)]
pub struct Sprite {
    /// The sprite's rectangle.
    pub rect: Rect,
}

impl Sprite {
    /// The rectangle lies within the position and size bounds.
    pub open spec fn wf(self) -> bool {
        self.rect.wf()
    }

    /// The sprite moved by `(dx, dy)` in screen space, its corner clamped into bounds.
    pub open spec fn spec_shifted(self, dx: int, dy: int) -> Sprite {
        Sprite {
            rect: Rect {
                x: clamp_position(self.rect.x + dx) as i32,
                y: clamp_position(self.rect.y + dy) as i32,
                ..self.rect
            },
        }
    }

    /// Creates a sprite of the given size (an image's width and height) centered on
    /// `(x, y)`.
    pub fn new(x: i32, y: i32, width: u32, height: u32) -> (r: Sprite)
        ensures
            r.rect == Rect::spec_from_center(Vec2Int { x, y }, width as int, height as int),
            r.wf(),
    {
        Sprite { rect: Rect::from_center(Vec2Int::new(x, y), width, height) }
    }

    fn shift(&mut self, dx: i64, dy: i64)
        requires
            -0x1_0000_0000 <= dx <= 0x1_0000_0000,
            -0x1_0000_0000 <= dy <= 0x1_0000_0000,
        ensures
            *final(self) == old(self).spec_shifted(dx as int, dy as int),
    {
        let new_x = clamp_position_exec(self.rect.x() as i64 + dx);
        let new_y = clamp_position_exec(self.rect.y() as i64 + dy);
        self.rect.set_x(new_x);
        self.rect.set_y(new_y);
    }

    /// Translates the sprite by `delta`, with y pointing up: the rectangle moves
    /// right by `delta.x` and up the screen by `delta.y`.
    pub fn translate(&mut self, delta: Vec2Int)
        ensures
            *final(self) == old(self).spec_shifted(delta.x as int, -delta.y),
            old(self).wf() ==> final(self).wf(),
    {
        self.shift(delta.x as i64, -(delta.y as i64));
    }

    /// Moves the sprite up the screen by `vel`.
    pub fn up(&mut self, vel: i32)
        ensures
            *final(self) == old(self).spec_shifted(0, -vel),
            old(self).wf() ==> final(self).wf(),
    {
        self.shift(0, -(vel as i64));
    }

    /// Moves the sprite down the screen by `vel`.
    pub fn down(&mut self, vel: i32)
        ensures
            *final(self) == old(self).spec_shifted(0, vel as int),
            old(self).wf() ==> final(self).wf(),
    {
        self.shift(0, vel as i64);
    }

    /// Moves the sprite left by `vel`.
    pub fn left(&mut self, vel: i32)
        ensures
            *final(self) == old(self).spec_shifted(-vel, 0),
            old(self).wf() ==> final(self).wf(),
    {
        self.shift(-(vel as i64), 0);
    }

    /// Moves the sprite right by `vel`.
    pub fn right(&mut self, vel: i32)
        ensures
            *final(self) == old(self).spec_shifted(vel as int, 0),
            old(self).wf() ==> final(self).wf(),
    {
        self.shift(vel as i64, 0);
    }

    /// Re-centers the sprite on `position`.
    pub fn set_position(&mut self, position: Vec2Int)
        ensures
            final(self).rect == old(self).rect.spec_centered_on(position),
            old(self).wf() ==> final(self).wf(),
    {
        self.rect.center_on(position);
    }

    /// The center of the sprite.
    pub fn position(&self) -> (r: Vec2Int)
        ensures
            r == self.rect.spec_center(),
    {
        self.rect.center()
    }
}

/// An ordered collection of sprites; duplicates and any order are allowed.
pub struct SpriteCollection {
    v: Vec<Sprite>,
}

impl View for SpriteCollection {
    type V = Seq<Sprite>;

    closed spec fn view(&self) -> Seq<Sprite> {
        self.v@
    }
}

impl SpriteCollection {
    /// Creates an empty collection.
    pub fn new() -> (r: SpriteCollection)
        ensures
            r@ == Seq::<Sprite>::empty(),
    {
        SpriteCollection { v: Vec::new() }
    }

    /// Creates an empty collection with room for `cap` sprites.
    pub fn with_capacity(cap: usize) -> (r: SpriteCollection)
        ensures
            r@ == Seq::<Sprite>::empty(),
    {
        SpriteCollection { v: Vec::with_capacity(cap) }
    }

    /// Adds a sprite at the end.
    pub fn push(&mut self, s: Sprite)
        ensures
            final(self)@ == old(self)@.push(s),
    {
        self.v.push(s);
    }

    /// Inserts a sprite at position `index`, shifting the later ones right.
    pub fn insert(&mut self, s: Sprite, index: usize)
        requires
            index <= old(self)@.len(),
        ensures
            final(self)@ == old(self)@.insert(index as int, s),
    {
        self.v.insert(index, s);
    }

    /// Removes and returns the last sprite, or `None` if the collection is empty.
    pub fn pop(&mut self) -> (r: Option<Sprite>)
        ensures
            old(self)@.len() == 0 ==> r == None::<Sprite> && final(self)@ == old(self)@,
            old(self)@.len() > 0 ==> r == Some(old(self)@.last()) && final(self)@
                == old(self)@.drop_last(),
    {
        self.v.pop()
    }

    /// Removes and returns the sprite at `index`, shifting the later ones left.
    pub fn remove(&mut self, index: usize) -> (r: Sprite)
        requires
            index < old(self)@.len(),
        ensures
            r == old(self)@[index as int],
            final(self)@ == old(self)@.remove(index as int),
    {
        self.v.remove(index)
    }

    /// The sprites, for changing them in place; their order and number stay fixed.
    pub fn iter(&mut self) -> (r: &mut [Sprite])
        ensures
            r@ == old(self)@,
            final(self)@ == final(r)@,
    {
        self.v.as_mut_slice()
    }

    /// Removes every sprite.
    pub fn clear(&mut self)
        ensures
            final(self)@ == Seq::<Sprite>::empty(),
    {
        self.v.clear();
    }

    /// Moves all the sprites of `other` to the end of this collection.
    pub fn concat(&mut self, other: SpriteCollection)
        ensures
            final(self)@ == old(self)@ + other@,
    {
        let mut other = other;
        self.v.append(&mut other.v);
    }

    /// The number of sprites.
    pub fn len(&self) -> (r: usize)
        ensures
            r == self@.len(),
    {
        self.v.len()
    }

    /// The sprite at `index`, or `None` if there is none.
    pub fn get(&self, index: usize) -> (r: Option<&Sprite>)
        ensures
            index < self@.len() ==> r == Some(&self@[index as int]),
            index >= self@.len() ==> r.is_none(),
    {
        if index < self.v.len() {
            Some(&self.v[index])
        } else {
            None
        }
    }

    /// The underlying vector of sprites.
    pub fn inner(&self) -> (r: &Vec<Sprite>)
        ensures
            r@ == self@,
    {
        &self.v
    }

    /// Whether the collection holds no sprite.
    pub fn is_empty(&self) -> (r: bool)
        ensures
            r == (self@.len() == 0),
    {
        self.v.is_empty()
    }
}

impl Default for SpriteCollection {
    fn default() -> (r: SpriteCollection)
        ensures
            r@ == Seq::<Sprite>::empty(),
    {
        SpriteCollection::new()
    }
}

} // verus!
