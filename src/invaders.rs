//! The swarm of invaders, marching in lockstep under one shared timer.

use vstd::prelude::*;
use crate::frame::{on_grid, painted_at, Drawable, Frame};
use crate::timer::Timer;
use crate::{NUM_COLS, NUM_ROWS};

verus! {

/// Shortest time, in milliseconds, between two steps of the swarm.
pub const MIN_MOVE_PERIOD: u64 = 250;

/// Time, in milliseconds, that each remaining invader adds to the step period.
pub const MOVE_PERIOD_PER_INVADER: u64 = 25;

/// Most invaders a swarm may hold: one per cell.
pub const MAX_ARMY: usize = 800;

#[derive(Clone, Copy, Debug, PartialEq, Eq, Structural)]
pub struct Invader {
    pub x: usize,
    pub y: usize,
}

impl Invader {
    pub fn new(x: usize, y: usize) -> (r: Invader)
        ensures
            r == (Invader { x, y }),
    {
        Invader { x, y }
    }
}

/// Step period of a swarm of `count` invaders: fewer invaders, faster steps.
pub open spec fn period_of(count: nat) -> nat {
    (MIN_MOVE_PERIOD + MOVE_PERIOD_PER_INVADER * count) as nat
}

/// Whether the starting formation holds an invader at (x, y).
pub open spec fn in_formation(x: int, y: int) -> bool {
    1 < x < NUM_COLS - 2 && 0 < y < 9 && x % 2 == 0 && y % 2 == 0
}

/// The starting formation among the first `n` cells, in column-major order.
pub open spec fn formation_upto(n: nat) -> Seq<Invader>
    decreases n,
{
    if n == 0 {
        Seq::empty()
    } else {
        let i = n - 1;
        let x = i / NUM_ROWS as int;
        let y = i % NUM_ROWS as int;
        let prev = formation_upto(i as nat);
        if in_formation(x, y) { prev.push(Invader { x: x as usize, y: y as usize }) } else { prev }
    }
}

/// The starting formation: an invader at every cell where `in_formation`
/// holds, column by column.
pub open spec fn formation() -> Seq<Invader> {
    formation_upto((NUM_COLS * NUM_ROWS) as nat)
}

/// Number of invaders of `army` at (x, y).
pub open spec fn count_at(army: Seq<Invader>, x: usize, y: usize) -> nat
    decreases army.len(),
{
    if army.len() == 0 {
        0
    } else {
        count_at(army.drop_last(), x, y) + if army.last() == (Invader { x, y }) { 1nat } else { 0nat }
    }
}

/// `army` without its invaders at (x, y), in the same order.
pub open spec fn without_at(army: Seq<Invader>, x: usize, y: usize) -> Seq<Invader>
    decreases army.len(),
{
    if army.len() == 0 {
        army
    } else if army.last() == (Invader { x, y }) {
        without_at(army.drop_last(), x, y)
    } else {
        without_at(army.drop_last(), x, y).push(army.last())
    }
}

/// Where no invader stands at (x, y), removing those there changes nothing.
pub proof fn lemma_without_none(army: Seq<Invader>, x: usize, y: usize)
    requires
        count_at(army, x, y) == 0,
    ensures
        without_at(army, x, y) == army,
    decreases army.len(),
{
    if army.len() > 0 {
        lemma_without_none(army.drop_last(), x, y);
        assert(army.drop_last().push(army.last()) =~= army);
    }
}

/// Removing the invaders of one cell leaves the count at any other cell as it was.
pub proof fn lemma_without_other_cell(army: Seq<Invader>, x: usize, y: usize, x2: usize, y2: usize)
    requires
        x != x2 || y != y2,
    ensures
        count_at(without_at(army, x, y), x2, y2) == count_at(army, x2, y2),
    decreases army.len(),
{
    if army.len() > 0 {
        lemma_without_other_cell(army.drop_last(), x, y, x2, y2);
        let w = without_at(army.drop_last(), x, y);
        if army.last() != (Invader { x, y }) {
            assert(w.push(army.last()).drop_last() =~= w);
        }
    }
}

/// Whether some invader stands at the edge that the swarm is marching toward.
pub open spec fn at_edge(army: Seq<Invader>, rightward: bool) -> bool {
    exists|i: int| 0 <= i < army.len() && army[i].x == (if rightward { NUM_COLS - 1 } else { 0 })
}

/// An invader one row lower, never below the bottom row.
pub open spec fn dropped(v: Invader) -> Invader {
    Invader { x: v.x, y: if v.y + 1 < NUM_ROWS { (v.y + 1) as usize } else { v.y } }
}

/// An invader one column further in the marching direction.
pub open spec fn shifted(v: Invader, rightward: bool) -> Invader {
    Invader { x: if rightward { (v.x + 1) as usize } else { (v.x - 1) as usize }, y: v.y }
}

/// The swarm after one step: dropped a row where it touches the edge it
/// marches toward, else shifted a column.
pub open spec fn marched(army: Seq<Invader>, rightward: bool) -> Seq<Invader> {
    if at_edge(army, rightward) {
        Seq::new(army.len(), |i: int| dropped(army[i]))
    } else {
        Seq::new(army.len(), |i: int| shifted(army[i], rightward))
    }
}

/// The cells `f` with each invader of `army` painted as `c`.
pub open spec fn paint_army(f: Seq<char>, army: Seq<Invader>, c: char) -> Seq<char>
    decreases army.len(),
{
    if army.len() == 0 {
        f
    } else {
        painted_at(paint_army(f, army.drop_last(), c), army.last().x as int, army.last().y as int, c)
    }
}

pub struct Invaders {
    pub army: Vec<Invader>,
    pub move_timer: Timer,
    pub rightward: bool,
}

impl Invaders {
    /// Every invader on the grid, at most one per cell's worth, and a
    /// consistent timer.
    pub open spec fn wf(&self) -> bool {
        &&& self.army.len() <= MAX_ARMY
        &&& forall|i: int| 0 <= i < self.army.len() ==> on_grid(#[trigger] self.army@[i].x as int, self.army@[i].y as int)
        &&& self.move_timer.wf()
    }

    /// The character that shows the invaders: it changes half way through a step.
    pub open spec fn glyph(&self) -> char {
        if self.move_timer.time_left > self.move_timer.duration - self.move_timer.time_left { 'x' } else { '+' }
    }

    /// A swarm as it starts a level: the starting formation, marching right,
    /// its timer set for the formation's size.
    pub open spec fn is_fresh(&self) -> bool {
        &&& self.army@ == formation()
        &&& self.rightward
        &&& self.move_timer == Timer::from_millis_spec(period_of(self.army.len() as nat) as u64)
    }

    /// A swarm in the starting formation, marching right.
    pub fn new() -> (r: Invaders)
        ensures
            r.wf(),
            r.is_fresh(),
            0 < r.army.len() < MAX_ARMY,
            forall|i: int| 0 <= i < r.army.len() ==> in_formation(#[trigger] r.army@[i].x as int, r.army@[i].y as int),
    {
        let mut army: Vec<Invader> = Vec::new();
        let mut x: usize = 0;
        while x < NUM_COLS
            invariant
                x <= NUM_COLS,
                army.len() <= x * NUM_ROWS,
                x > 0 ==> army.len() < x * NUM_ROWS,
                x > 2 ==> army.len() > 0,
                army@ == formation_upto((x * NUM_ROWS) as nat),
                forall|i: int| 0 <= i < army.len() ==> on_grid(#[trigger] army@[i].x as int, army@[i].y as int) && in_formation(army@[i].x as int, army@[i].y as int),
            decreases NUM_COLS - x,
        {
            let mut y: usize = 0;
            while y < NUM_ROWS
                invariant
                    x < NUM_COLS,
                    y <= NUM_ROWS,
                    army.len() <= x * NUM_ROWS + y,
                    x * NUM_ROWS + y > 0 ==> army.len() < x * NUM_ROWS + y,
                    x > 2 || (x == 2 && y > 2) ==> army.len() > 0,
                    army@ == formation_upto((x * NUM_ROWS + y) as nat),
                    forall|i: int| 0 <= i < army.len() ==> on_grid(#[trigger] army@[i].x as int, army@[i].y as int) && in_formation(army@[i].x as int, army@[i].y as int),
                decreases NUM_ROWS - y,
            {
                let ghost i: int = x * NUM_ROWS + y;
                assert(i / NUM_ROWS as int == x && i % NUM_ROWS as int == y);
                if x > 1 && x < NUM_COLS - 2 && y > 0 && y < 9 && x % 2 == 0 && y % 2 == 0 {
                    army.push(Invader { x, y });
                }
                y = y + 1;
            }
            x = x + 1;
        }
        let period = MIN_MOVE_PERIOD + MOVE_PERIOD_PER_INVADER * army.len() as u64;
        Invaders { army, move_timer: Timer::from_millis(period), rightward: true }
    }

    /// A swarm of the given invaders, marching right.
    pub fn with_army(army: Vec<Invader>) -> (r: Invaders)
        requires
            army.len() <= MAX_ARMY,
            forall|i: int| 0 <= i < army.len() ==> on_grid(#[trigger] army@[i].x as int, army@[i].y as int),
        ensures
            r.wf(),
            r.army@ == army@,
            r.rightward,
            r.move_timer == Timer::from_millis_spec(period_of(army.len() as nat) as u64),
    {
        let period = MIN_MOVE_PERIOD + MOVE_PERIOD_PER_INVADER * army.len() as u64;
        Invaders { army, move_timer: Timer::from_millis(period), rightward: true }
    }
    /// Removes every invader at (x, y), keeping the others in order, and
    /// returns how many were removed.
    pub fn kill_invader_at(&mut self, x: usize, y: usize) -> (r: u16)
        requires
            old(self).wf(),
        ensures
            final(self).wf(),
            final(self).army@ == without_at(old(self).army@, x, y),
            r as nat == count_at(old(self).army@, x, y),
            r as nat + final(self).army.len() == old(self).army.len(),
            final(self).move_timer == old(self).move_timer,
            final(self).rightward == old(self).rightward,
    {
        let mut kept: Vec<Invader> = Vec::new();
        let mut count: u16 = 0;
        let mut i: usize = 0;
        while i < self.army.len()
            invariant
                self.wf(),
                self.army@ == old(self).army@,
                self.move_timer == old(self).move_timer,
                self.rightward == old(self).rightward,
                i <= self.army.len(),
                kept@ == without_at(self.army@.take(i as int), x, y),
                count as nat == count_at(self.army@.take(i as int), x, y),
                count as nat + kept.len() == i,
                forall|k: int| 0 <= k < kept.len() ==> on_grid(#[trigger] kept@[k].x as int, kept@[k].y as int),
            decreases self.army.len() - i,
        {
            let v = self.army[i];
            assert(self.army@.take(i as int + 1).drop_last() =~= self.army@.take(i as int));
            if v.x == x && v.y == y {
                count = count + 1;
            } else {
                kept.push(v);
            }
            i = i + 1;
        }
        assert(self.army@.take(i as int) =~= self.army@);
        self.army = kept;
        count
    }

    /// True when no invader is left.
    pub fn all_killed(&self) -> (r: bool)
        ensures
            r == (self.army.len() == 0),
    {
        self.army.len() == 0
    }

    /// Whether some invader has come down to the player's row.
    pub open spec fn reached_bottom_spec(&self) -> bool {
        exists|i: int| 0 <= i < self.army.len() && #[trigger] self.army@[i].y >= NUM_ROWS - 1
    }

    /// True when some invader has come down to the player's row.
    pub fn reached_bottom(&self) -> (r: bool)
        ensures
            r == self.reached_bottom_spec(),
    {
        let mut i: usize = 0;
        while i < self.army.len()
            invariant
                i <= self.army.len(),
                forall|k: int| 0 <= k < i ==> #[trigger] self.army@[k].y < NUM_ROWS - 1,
            decreases self.army.len() - i,
        {
            if self.army[i].y >= NUM_ROWS - 1 {
                return true;
            }
            i = i + 1;
        }
        false
    }

    /// Whether some invader stands at the edge the swarm marches toward.
    fn touches_edge(&self) -> (r: bool)
        ensures
            r == at_edge(self.army@, self.rightward),
    {
        let edge: usize = if self.rightward { NUM_COLS - 1 } else { 0 };
        let mut i: usize = 0;
        while i < self.army.len()
            invariant
                i <= self.army.len(),
                edge == (if self.rightward { NUM_COLS - 1 } else { 0 }),
                forall|k: int| 0 <= k < i ==> #[trigger] self.army@[k].x != edge,
            decreases self.army.len() - i,
        {
            if self.army[i].x == edge {
                return true;
            }
            i = i + 1;
        }
        false
    }

    /// Advances the shared timer. When it fires the whole swarm steps once:
    /// one column in the marching direction, or, where an invader already
    /// stands at that edge, one row down (never below the bottom row) with the
    /// direction reversed. The timer then restarts with a period set by the
    /// number of invaders left. Returns whether the swarm stepped.
    pub fn update(&mut self, elapsed: u64) -> (r: bool)
        requires
            old(self).wf(),
        ensures
            final(self).wf(),
            r == old(self).move_timer.updated(elapsed).ready,
            final(self).army.len() == old(self).army.len(),
            !r ==> final(self).army@ == old(self).army@ && final(self).rightward == old(self).rightward
                && final(self).move_timer == old(self).move_timer.updated(elapsed),
            r ==> final(self).move_timer == Timer::from_millis_spec(period_of(old(self).army.len() as nat) as u64),
            r ==> final(self).army@ == marched(old(self).army@, old(self).rightward),
            r && at_edge(old(self).army@, old(self).rightward) ==> final(self).rightward == !old(self).rightward
                && forall|i: int| 0 <= i < old(self).army.len() ==> final(self).army@[i] == dropped(#[trigger] old(self).army@[i]),
            r && !at_edge(old(self).army@, old(self).rightward) ==> final(self).rightward == old(self).rightward
                && forall|i: int| 0 <= i < old(self).army.len() ==> final(self).army@[i] == shifted(#[trigger] old(self).army@[i], old(self).rightward),
    {
        self.move_timer.update(elapsed);
        if !self.move_timer.ready() {
            return false;
        }
        let downward = self.touches_edge();
        let n = self.army.len();
        let mut i: usize = 0;
        while i < n
            invariant
                n == self.army.len() == old(self).army.len(),
                n <= MAX_ARMY,
                i <= n,
                self.rightward == old(self).rightward,
                downward == at_edge(old(self).army@, old(self).rightward),
                forall|k: int| 0 <= k < n ==> on_grid(#[trigger] self.army@[k].x as int, self.army@[k].y as int),
                forall|k: int| i <= k < n ==> #[trigger] self.army@[k] == old(self).army@[k],
                forall|k: int| 0 <= k < i ==> downward ==> #[trigger] self.army@[k] == dropped(old(self).army@[k]),
                forall|k: int| 0 <= k < i ==> !downward ==> #[trigger] self.army@[k] == shifted(old(self).army@[k], old(self).rightward),
                !downward ==> forall|k: int| 0 <= k < n ==> #[trigger] old(self).army@[k].x != (if old(self).rightward { NUM_COLS - 1 } else { 0 }),
            decreases n - i,
        {
            let v = self.army[i];
            let moved = if downward {
                Invader { x: v.x, y: if v.y + 1 < NUM_ROWS { v.y + 1 } else { v.y } }
            } else if self.rightward {
                Invader { x: v.x + 1, y: v.y }
            } else {
                Invader { x: v.x - 1, y: v.y }
            };
            self.army.set(i, moved);
            i = i + 1;
        }
        assert(self.army@ =~= marched(old(self).army@, old(self).rightward));
        if downward {
            self.rightward = !self.rightward;
        }
        let period = MIN_MOVE_PERIOD + MOVE_PERIOD_PER_INVADER * n as u64;
        self.move_timer = Timer::from_millis(period);
        true
    }
}

impl Drawable for Invaders {
    open spec fn drawable(&self) -> bool {
        self.wf()
    }

    open spec fn painted(&self, f: Seq<char>) -> Seq<char> {
        paint_army(f, self.army@, self.glyph())
    }

    fn draw(&self, frame: &mut Frame) {
        let t = self.move_timer;
        let c = if t.time_left() > t.duration() - t.time_left() { 'x' } else { '+' };
        let mut i: usize = 0;
        while i < self.army.len()
            invariant
                self.wf(),
                c == self.glyph(),
                i <= self.army.len(),
                frame.wf(),
                frame@ == paint_army(old(frame)@, self.army@.take(i as int), c),
            decreases self.army.len() - i,
        {
            let v = self.army[i];
            assert(self.army@.take(i as int + 1).drop_last() =~= self.army@.take(i as int));
            frame.set(v.x, v.y, c);
            i = i + 1;
        }
        assert(self.army@.take(i as int) =~= self.army@);
    }
}

} // verus!
