//! A shot fired by the player, climbing one row per period.

use vstd::prelude::*;
use crate::frame::{on_grid, painted_at, Drawable, Frame};
use crate::timer::Timer;
use crate::SHOT_PERIOD;

verus! {

/// How long, in milliseconds, an exploding shot stays on screen.
pub const EXPLOSION_PERIOD: u64 = 250;

#[derive(Clone, Copy, Debug, PartialEq, Eq, Structural)]
pub struct Shot {
    pub x: usize,
    pub y: usize,
    pub exploding: bool,
    pub timer: Timer,
}

/// A shot just fired at (x, y).
pub open spec fn spawned(x: usize, y: usize) -> Shot {
    Shot {
        x,
        y,
        exploding: false,
        timer: Timer { duration: SHOT_PERIOD, time_left: SHOT_PERIOD, ready: false },
    }
}

impl Shot {
    /// On the grid, with a consistent timer.
    pub open spec fn wf(&self) -> bool {
        on_grid(self.x as int, self.y as int) && self.timer.wf()
    }

    /// The shot as `update(elapsed)` leaves it.
    pub open spec fn updated(self, elapsed: u64) -> Shot {
        let t = self.timer.updated(elapsed);
        if t.ready && !self.exploding {
            Shot { y: if self.y > 0 { (self.y - 1) as usize } else { 0 }, timer: t.restarted(), ..self }
        } else {
            Shot { timer: t, ..self }
        }
    }

    /// The shot as `explode()` leaves it.
    pub open spec fn exploded(self) -> Shot {
        Shot {
            exploding: true,
            timer: Timer { duration: EXPLOSION_PERIOD, time_left: EXPLOSION_PERIOD, ready: false },
            ..self
        }
    }

    /// Whether the shot is to be removed.
    pub open spec fn is_dead(self) -> bool {
        (self.exploding && self.timer.ready) || self.y == 0
    }

    /// The character that shows the shot.
    pub open spec fn glyph(self) -> char {
        if self.exploding { '*' } else { '|' }
    }

    pub fn new(x: usize, y: usize) -> (r: Shot)
        ensures
            r == spawned(x, y),
    {
        Shot { x, y, exploding: false, timer: Timer::from_millis(SHOT_PERIOD) }
    }

    /// Advances the movement timer; when it fires on a shot that is not
    /// exploding, the shot climbs one row (never above row 0) and the timer
    /// restarts.
    pub fn update(&mut self, elapsed: u64)
        ensures
            *final(self) == old(self).updated(elapsed),
            old(self).wf() ==> final(self).wf(),
    {
        self.timer.update(elapsed);
        if self.timer.ready() && !self.exploding {
            if self.y > 0 {
                self.y = self.y - 1;
            }
            self.timer.reset();
        }
    }

    /// Marks the shot as hit: it stays on screen for the explosion period.
    pub fn explode(&mut self)
        ensures
            *final(self) == old(self).exploded(),
            old(self).wf() ==> final(self).wf(),
    {
        self.exploding = true;
        self.timer = Timer::from_millis(EXPLOSION_PERIOD);
    }

    /// True once an explosion has run its course, or once the shot has
    /// reached the top row.
    pub fn dead(&self) -> (r: bool)
        ensures
            r == self.is_dead(),
    {
        (self.exploding && self.timer.ready()) || self.y == 0
    }
}

impl Drawable for Shot {
    open spec fn drawable(&self) -> bool {
        on_grid(self.x as int, self.y as int)
    }

    open spec fn painted(&self, f: Seq<char>) -> Seq<char> {
        painted_at(f, self.x as int, self.y as int, self.glyph())
    }

    fn draw(&self, frame: &mut Frame) {
        let c = if self.exploding { '*' } else { '|' };
        frame.set(self.x, self.y, c);
    }
}

/// A shot fired at (x, y) and then given one period, or a millisecond more,
/// has climbed to (x, y - 1); fired at row 1, it has thereby reached the top
/// row and is dead without having exploded.
pub proof fn lemma_shot_climbs(x: usize, y: usize)
    requires
        y > 0,
    ensures
        spawned(x, y).updated(SHOT_PERIOD).y == y - 1,
        spawned(x, y).updated((SHOT_PERIOD - 1) as u64).y == y,
        spawned(x, y).updated((SHOT_PERIOD + 1) as u64).x == x,
        spawned(x, y).updated((SHOT_PERIOD + 1) as u64).y == y - 1,
        !spawned(x, y).updated((SHOT_PERIOD + 1) as u64).exploding,
        y == 1 ==> spawned(x, y).updated((SHOT_PERIOD + 1) as u64).is_dead(),
{
}

/// An exploding shot stays where it is, and is dead once the explosion
/// period has been used up.
pub proof fn lemma_explosion_ends(s: Shot, elapsed: u64)
    requires
        s.y > 0,
    ensures
        s.exploded().updated(elapsed).x == s.x,
        s.exploded().updated(elapsed).y == s.y,
        s.exploded().updated(elapsed).is_dead() <==> elapsed >= EXPLOSION_PERIOD,
{
}

} // verus!
