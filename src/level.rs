//! The level counter, which ends the game once it passes its cap.

use vstd::prelude::*;
use crate::frame::{digit, digit_char, written, Drawable, Frame};

verus! {

/// The last level; completing it wins the game.
pub const MAX_LEVEL: u8 = 3;

/// Column at which the level is shown on the top row.
pub const LEVEL_COLUMN: usize = 20;

/// The line that shows level `n` (below 10).
pub open spec fn level_text(n: u8) -> Seq<char> {
    seq!['L', 'E', 'V', 'E', 'L', ':', ' ', '0', digit_char(n as int)]
}

#[derive(Clone, Copy, Debug, PartialEq, Eq, Structural)]
pub struct Level {
    level: u8,
}

impl View for Level {
    type V = u8;

    closed spec fn view(&self) -> u8 {
        self.level
    }
}

impl Level {
    /// Between the first level and one past the last.
    pub open spec fn wf(&self) -> bool {
        1 <= self@ <= MAX_LEVEL + 1
    }

    /// The first level.
    pub fn new() -> (r: Level)
        ensures
            r@ == 1,
            r.wf(),
    {
        Level { level: 1 }
    }

    /// Moves to the next level, never past one beyond the last; returns
    /// whether the last level has now been passed, that is, the game won.
    pub fn increment_level(&mut self) -> (r: bool)
        requires
            old(self).wf(),
        ensures
            final(self).wf(),
            final(self)@ == if old(self)@ <= MAX_LEVEL { (old(self)@ + 1) as u8 } else { old(self)@ },
            r == (final(self)@ > MAX_LEVEL),
    {
        if self.level <= MAX_LEVEL {
            self.level = self.level + 1;
        }
        self.level > MAX_LEVEL
    }

    /// The current level.
    pub fn level(&self) -> (r: u8)
        ensures
            r == self@,
    {
        self.level
    }
}

impl Default for Level {
    fn default() -> (r: Level)
        ensures
            r@ == 1,
    {
        Level::new()
    }
}

impl Drawable for Level {
    open spec fn drawable(&self) -> bool {
        self.wf()
    }

    open spec fn painted(&self, f: Seq<char>) -> Seq<char> {
        written(f, LEVEL_COLUMN as int, 0, level_text(self@))
    }

    fn draw(&self, frame: &mut Frame) {
        let text: Vec<char> = vec!['L', 'E', 'V', 'E', 'L', ':', ' ', '0', digit(self.level as u16)];
        assert(text@ =~= level_text(self@));
        frame.write_text(LEVEL_COLUMN, 0, &text);
    }
}

} // verus!
