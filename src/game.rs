//! The state a game keeps between frames: its window settings, an in-game clock and
//! whether it has been asked to stop.

use vstd::prelude::*;
use std::time::Instant;

verus! {

/// A game: the window it opens, an in-game clock, and a stop flag that the frame
/// loop checks once per frame.
pub struct Game {
    /// The title that the window displays.
    pub title: String,
    /// The width of the opened window.
    pub width: u32,
    /// The height of the opened window.
    pub height: u32,
    /// When the in-game clock was last reset.
    pub time: Instant,
    /// Whether the game has been asked to stop; [`Game::terminate`] sets it.
    pub stopped: bool,
}

impl Game {
    /// Creates a game with the given window title and size; it is not stopped.
    pub fn new(title: &str, width: u32, height: u32) -> (r: Game)
        ensures
            r.title@ == title@,
            r.width == width,
            r.height == height,
            !r.stopped,
    {
        Game { title: title.to_owned(), width, height, time: Instant::now(), stopped: false }
    }

    /// The milliseconds since the in-game clock was last reset.
    pub fn step(&self) -> (r: u128) {
        self.time.elapsed().as_millis()
    }

    /// Resets the in-game clock; nothing else changes.
    pub fn t_reset(&mut self)
        ensures
            final(self).title == old(self).title,
            final(self).width == old(self).width,
            final(self).height == old(self).height,
            final(self).stopped == old(self).stopped,
    {
        self.time = Instant::now();
    }

    /// Asks the frame loop to stop after the current frame; nothing else changes.
    pub fn terminate(&mut self)
        ensures
            final(self).stopped,
            final(self).title == old(self).title,
            final(self).width == old(self).width,
            final(self).height == old(self).height,
            final(self).time == old(self).time,
    {
        self.stopped = true;
    }

    /// Whether the frame loop runs another frame: only if the game has not been
    /// asked to stop and the window has not been asked to quit.
    pub fn keep_running(&self, quit_requested: bool) -> (r: bool)
        ensures
            r == !(self.stopped || quit_requested),
    {
        !(self.stopped || quit_requested)
    }
}

} // verus!
