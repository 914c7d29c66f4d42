//! Clickable buttons: a sprite at a fixed place, and the pointer events it has seen.

use vstd::prelude::*;
use crate::physics::{check_for_collision_with_point, collides_with_point};
use crate::rect::Rect;
use crate::sprite::Sprite;
use crate::vec2::Vec2Int;

verus! {

/// A pointer event recorded by a button.
#[allow(non_camel_case_types)]
#[derive(Debug, Clone, Copy, PartialEq, Eq, Structural)]
pub enum Actions {
    /// The left button went down over the button.
    PRESSED,
    /// The button was released.
    DEPRESSED,
    /// The pointer is over the button.
    HOVER,
    /// Nothing happened.
    NONE,
}

/// One frame of a button: the recorded events after the frame, and whether the
/// button's action fires.
///
/// The most recent event is taken off; the action fires if it was a press. Then a
/// left press over the button records a press; with the left button up, the pointer
/// over the button records a hover; otherwise the most recent remaining event is
/// dropped.
pub open spec fn click_step(actions: Seq<Actions>, left_pressed: bool, over: bool) -> (
    Seq<Actions>,
    bool,
) {
    let (rest, fire) = if actions.len() > 0 {
        (actions.drop_last(), actions.last() == Actions::PRESSED)
    } else {
        (actions, false)
    };
    let next = if left_pressed {
        if over {
            rest.push(Actions::PRESSED)
        } else {
            rest
        }
    } else if over {
        rest.push(Actions::HOVER)
    } else if rest.len() > 0 {
        rest.drop_last()
    } else {
        rest
    };
    (next, fire)
}

/// A button drawn with a sprite centered on `(x, y)`.
pub struct Button {
    /// The sprite the button is drawn with.
    pub sprite: Sprite,
    /// The horizontal position of the button's center.
    pub x: i32,
    /// The vertical position of the button's center.
    pub y: i32,
    /// The events recorded so far, the most recent last.
    pub actions: Vec<Actions>,
}

impl Button {
    /// Creates a button whose sprite has the given size (an image's width and
    /// height) and is centered on `(x, y)`.
    pub fn new(x: i32, y: i32, width: u32, height: u32) -> (r: Button)
        ensures
            r.sprite.rect == Rect::spec_from_center(Vec2Int { x, y }, width as int, height as int),
            r.x == x,
            r.y == y,
            r.actions@ == Seq::<Actions>::empty(),
    {
        let s = Sprite::new(x, y, width, height);
        Button { sprite: s, x, y, actions: Vec::new() }
    }

    /// Re-centers the sprite on the button's position, as is done before drawing.
    pub fn center_sprite(&mut self)
        ensures
            final(self).sprite.rect == old(self).sprite.rect.spec_centered_on(
                Vec2Int { x: old(self).x, y: old(self).y },
            ),
            final(self).x == old(self).x,
            final(self).y == old(self).y,
            final(self).actions@ == old(self).actions@,
    {
        self.sprite.set_position(Vec2Int::new(self.x, self.y));
    }

    /// Runs one frame of the button, given whether the first pressed mouse button is
    /// the left one and where the pointer is. Returns whether the button's action
    /// fires.
    pub fn clicked(&mut self, left_pressed: bool, mouse: Vec2Int) -> (fire: bool)
        ensures
            (final(self).actions@, fire) == click_step(
                old(self).actions@,
                left_pressed,
                collides_with_point(old(self).sprite, mouse),
            ),
            final(self).sprite == old(self).sprite,
            final(self).x == old(self).x,
            final(self).y == old(self).y,
    {
        let mut fire = false;
        if let Some(action) = self.actions.pop() {
            fire = action == Actions::PRESSED;
        }
        let over = check_for_collision_with_point(&self.sprite, &mouse);
        if left_pressed {
            if over {
                self.actions.push(Actions::PRESSED);
            }
        } else if over {
            self.actions.push(Actions::HOVER);
        } else if self.actions.len() > 0 {
            self.actions.pop();
        }
        fire
    }
}

} // verus!
