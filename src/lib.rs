//! A small 2D game-engine core: integer vector math, cardinal directions, sprite
//! geometry, axis-aligned collision checks, clickable buttons and frame-loop state.

use vstd::prelude::*;

pub mod vec2;
pub mod vec3;
pub mod rect;
pub mod sprite;
pub mod physics;
pub mod button;
pub mod timer;
pub mod game;

pub use vec2::{Direction, Vec2Int};
pub use vec3::Vec3Int;
pub use rect::Rect;
pub use sprite::{Sprite, SpriteCollection};
pub use button::{Actions, Button};
pub use physics::{check_for_collision, check_for_collision_with_collection, check_for_collision_with_point};
pub use timer::Timer;
pub use game::Game;

verus! {

/// An error with a human-readable message.
#[derive(Clone, Debug)]
pub struct CatboxError(String);

impl View for CatboxError {
    type V = Seq<char>;

    closed spec fn view(&self) -> Seq<char> {
        self.0@
    }
}

impl CatboxError {
    /// The message of the error.
    pub fn to_string(&self) -> (r: String)
        ensures
            r@ == self@,
    {
        self.0.clone()
    }
}

impl From<String> for CatboxError {
    fn from(e: String) -> (r: CatboxError)
        ensures
            r@ == e@,
    {
        CatboxError(e)
    }
}

impl vstd::std_specs::convert::FromSpecImpl<String> for CatboxError {
    open spec fn obeys_from_spec() -> bool {
        true
    }

    closed spec fn from_spec(e: String) -> CatboxError {
        CatboxError(e)
    }
}

/// The result of an operation that may fail with a [`CatboxError`].
pub type Result<T> = std::result::Result<T, CatboxError>;

/// How text is drawn.
#[derive(Clone, Copy, Debug)]
pub enum TextMode {
    /// The text alone, in one colour, on a transparent background.
    Transparent { colour: (u8, u8, u8) },
    /// The text in a foreground colour inside a box of a background colour.
    Shaded { foreground: (u8, u8, u8), background: (u8, u8, u8) },
}

} // verus!
