//! The player's cannon at the bottom of the grid, with its shots in flight.

use vstd::prelude::*;
use crate::frame::{on_grid, painted_at, Drawable, Frame};
use crate::invaders::{count_at, without_at, Invader, Invaders};
use crate::shot::{spawned, Shot};
use crate::{NUM_COLS, NUM_ROWS};

verus! {

/// Most shots a player may have in flight.
pub const MAX_SHOTS: usize = 2;

/// The shots that remain after each of `shots` has been advanced by
/// `elapsed`, dead ones left out, in order.
pub open spec fn advanced(shots: Seq<Shot>, elapsed: u64) -> Seq<Shot>
    decreases shots.len(),
{
    if shots.len() == 0 {
        shots
    } else {
        let prev = advanced(shots.drop_last(), elapsed);
        let s = shots.last().updated(elapsed);
        if s.is_dead() { prev } else { prev.push(s) }
    }
}

/// Shots, swarm and total of hits after the first `n` shots have been
/// checked in order: a shot that is not exploding and shares its cell with
/// invaders removes them all, adds their number and starts exploding.
pub open spec fn hits_after(shots: Seq<Shot>, army: Seq<crate::invaders::Invader>, n: nat) -> (Seq<Shot>, Seq<crate::invaders::Invader>, nat)
    decreases n,
{
    if n == 0 {
        (shots, army, 0)
    } else {
        let (s, a, t) = hits_after(shots, army, (n - 1) as nat);
        let shot = shots[n - 1];
        let c = count_at(a, shot.x, shot.y);
        if !shot.exploding && c > 0 {
            (s.update(n - 1, shot.exploded()), without_at(a, shot.x, shot.y), t + c)
        } else {
            (s, a, t)
        }
    }
}

/// With one shot in flight, the hits are exactly the invaders at the shot's
/// cell when it is not exploding; it then starts exploding if there were any,
/// and where there were none it is left as it was.
pub proof fn lemma_single_shot_hits(s: Shot, army: Seq<Invader>)
    ensures
        hits_after(seq![s], army, 1).2 == if s.exploding { 0 } else { count_at(army, s.x, s.y) },
        hits_after(seq![s], army, 1).0 == if !s.exploding && count_at(army, s.x, s.y) > 0 {
            seq![s.exploded()]
        } else {
            seq![s]
        },
        hits_after(seq![s], army, 1).1 == if s.exploding { army } else { without_at(army, s.x, s.y) },
{
    assert(seq![s].update(0, s.exploded()) =~= seq![s.exploded()]);
    assert(seq![s][0] == s);
    assert(hits_after(seq![s], army, 0) == (seq![s], army, 0nat));
    assert(hits_after(seq![s], army, 1) == {
        let c = count_at(army, s.x, s.y);
        if !s.exploding && c > 0 {
            (seq![s].update(0, s.exploded()), without_at(army, s.x, s.y), c)
        } else {
            (seq![s], army, 0nat)
        }
    });
    if !s.exploding && count_at(army, s.x, s.y) == 0 {
        crate::invaders::lemma_without_none(army, s.x, s.y);
    }
}

/// Whether `v` stands at the cell of one of the first `n` shots that is not
/// exploding.
pub open spec fn covered(v: Invader, shots: Seq<Shot>, n: nat) -> bool {
    exists|j: int| 0 <= j < n && !shots[j].exploding && v == #[trigger] cell_of(shots[j])
}

/// The cell of a shot, as the invader that would stand there.
pub open spec fn cell_of(s: Shot) -> Invader {
    Invader { x: s.x, y: s.y }
}

/// The invaders of `army` that are not covered by the first `n` shots, in order.
pub open spec fn uncovered(army: Seq<Invader>, shots: Seq<Shot>, n: nat) -> Seq<Invader>
    decreases army.len(),
{
    if army.len() == 0 {
        army
    } else if covered(army.last(), shots, n) {
        uncovered(army.drop_last(), shots, n)
    } else {
        uncovered(army.drop_last(), shots, n).push(army.last())
    }
}

/// The number of invaders of `army` covered by the first `n` shots.
pub open spec fn covered_count(army: Seq<Invader>, shots: Seq<Shot>, n: nat) -> nat
    decreases army.len(),
{
    if army.len() == 0 {
        0
    } else {
        covered_count(army.drop_last(), shots, n) + if covered(army.last(), shots, n) { 1nat } else { 0nat }
    }
}

/// Taking one more shot into account removes, from what was uncovered, the
/// invaders at its cell (none where it is exploding).
proof fn lemma_cover_one_more(army: Seq<Invader>, shots: Seq<Shot>, m: nat)
    requires
        m < shots.len(),
    ensures
        !shots[m as int].exploding ==> uncovered(army, shots, m + 1) == without_at(
            uncovered(army, shots, m),
            shots[m as int].x,
            shots[m as int].y,
        ),
        !shots[m as int].exploding ==> covered_count(army, shots, m + 1) == covered_count(army, shots, m) + count_at(
            uncovered(army, shots, m),
            shots[m as int].x,
            shots[m as int].y,
        ),
        shots[m as int].exploding ==> uncovered(army, shots, m + 1) == uncovered(army, shots, m),
        shots[m as int].exploding ==> covered_count(army, shots, m + 1) == covered_count(army, shots, m),
    decreases army.len(),
{
    if army.len() > 0 {
        let v = army.last();
        let s = shots[m as int];
        lemma_cover_one_more(army.drop_last(), shots, m);
        assert(covered(v, shots, m + 1) <==> (covered(v, shots, m) || (!s.exploding && v == cell_of(s)))) by {
            if covered(v, shots, m + 1) && !covered(v, shots, m) {
                let j = choose|j: int| 0 <= j < m + 1 && !shots[j].exploding && v == #[trigger] cell_of(shots[j]);
                assert(j == m);
            }
            if !s.exploding && v == cell_of(s) {
                assert(0 <= m < m + 1 && !shots[m as int].exploding && v == cell_of(shots[m as int]));
            }
        }
        let u = uncovered(army.drop_last(), shots, m);
        if !covered(v, shots, m) {
            assert(u.push(v).drop_last() =~= u);
        }
    }
}

/// Whatever the shots' cells, the hits of the first `n` shots are exactly
/// the invaders standing at the cell of one of them that is not exploding,
/// and those are the invaders removed; each invader is counted once, even
/// where two shots share its cell. A shot starts exploding exactly when it
/// was not exploding and found invaders at its cell that no earlier shot had
/// taken; the other shots are left as they were.
pub proof fn lemma_hits_are_covered_invaders(shots: Seq<Shot>, army: Seq<Invader>, n: nat)
    requires
        n <= shots.len(),
    ensures
        hits_after(shots, army, n).2 == covered_count(army, shots, n),
        hits_after(shots, army, n).1 == uncovered(army, shots, n),
        hits_after(shots, army, n).0.len() == shots.len(),
        forall|j: int| 0 <= j < n ==> #[trigger] hits_after(shots, army, n).0[j] == if !shots[j].exploding
            && count_at(uncovered(army, shots, j as nat), shots[j].x, shots[j].y) > 0 {
            shots[j].exploded()
        } else {
            shots[j]
        },
        forall|j: int| n <= j < shots.len() ==> #[trigger] hits_after(shots, army, n).0[j] == shots[j],
    decreases n,
{
    if n == 0 {
        lemma_uncovered_none(army, shots);
    } else {
        let m = (n - 1) as nat;
        lemma_hits_are_covered_invaders(shots, army, m);
        lemma_cover_one_more(army, shots, m);
        let shot = shots[m as int];
        let a = uncovered(army, shots, m);
        if !shot.exploding && count_at(a, shot.x, shot.y) == 0 {
            crate::invaders::lemma_without_none(a, shot.x, shot.y);
        }
    }
}

/// No shot covers nothing.
proof fn lemma_uncovered_none(army: Seq<Invader>, shots: Seq<Shot>)
    ensures
        uncovered(army, shots, 0) == army,
        covered_count(army, shots, 0) == 0,
    decreases army.len(),
{
    if army.len() > 0 {
        lemma_uncovered_none(army.drop_last(), shots);
        assert(army.drop_last().push(army.last()) =~= army);
    }
}

/// The cells `f` with each of `shots` painted over it in order.
pub open spec fn paint_shots(f: Seq<char>, shots: Seq<Shot>) -> Seq<char>
    decreases shots.len(),
{
    if shots.len() == 0 {
        f
    } else {
        let s = shots.last();
        painted_at(paint_shots(f, shots.drop_last()), s.x as int, s.y as int, s.glyph())
    }
}

pub struct Player {
    pub x: usize,
    pub y: usize,
    pub shots: Vec<Shot>,
}

impl Player {
    /// On the grid below the top row, with at most two shots, each on the grid.
    pub open spec fn wf(&self) -> bool {
        &&& on_grid(self.x as int, self.y as int)
        &&& self.y > 0
        &&& self.shots.len() <= MAX_SHOTS
        &&& forall|i: int| 0 <= i < self.shots.len() ==> (#[trigger] self.shots@[i]).wf()
    }

    /// At the middle of the bottom row, with no shot.
    pub open spec fn is_fresh(&self) -> bool {
        &&& self.x == NUM_COLS / 2
        &&& self.y == NUM_ROWS - 1
        &&& self.shots.len() == 0
    }

    /// A player at the middle of the bottom row, with no shot.
    pub fn new() -> (r: Player)
        ensures
            r.wf(),
            r.is_fresh(),
            r.x == NUM_COLS / 2,
            r.y == NUM_ROWS - 1,
            r.shots.len() == 0,
    {
        Player { x: NUM_COLS / 2, y: NUM_ROWS - 1, shots: Vec::new() }
    }

    /// One column left, staying at column 0 there.
    pub fn move_left(&mut self)
        requires
            old(self).wf(),
        ensures
            final(self).wf(),
            final(self).x == if old(self).x > 0 { old(self).x - 1 } else { 0int },
            final(self).y == old(self).y,
            final(self).shots@ == old(self).shots@,
    {
        if self.x > 0 {
            self.x = self.x - 1;
        }
    }

    /// One column right, staying at the last column there.
    pub fn move_right(&mut self)
        requires
            old(self).wf(),
        ensures
            final(self).wf(),
            final(self).x == if old(self).x < NUM_COLS - 1 { old(self).x + 1 } else { old(self).x as int },
            final(self).y == old(self).y,
            final(self).shots@ == old(self).shots@,
    {
        if self.x < NUM_COLS - 1 {
            self.x = self.x + 1;
        }
    }

    /// Fires a shot from the row above the player, unless two are already in
    /// flight; returns whether it fired. Nothing changes when it does not.
    pub fn shoot(&mut self) -> (r: bool)
        requires
            old(self).wf(),
        ensures
            final(self).wf(),
            r == (old(self).shots.len() < MAX_SHOTS),
            r ==> final(self).shots@ == old(self).shots@.push(spawned(old(self).x, (old(self).y - 1) as usize)),
            r ==> final(self).x == old(self).x && final(self).y == old(self).y,
            !r ==> final(self)@ == old(self)@,
    {
        if self.shots.len() < MAX_SHOTS {
            self.shots.push(Shot::new(self.x, self.y - 1));
            true
        } else {
            false
        }
    }

    /// Advances every shot by `elapsed`, then drops the dead ones.
    pub fn update(&mut self, elapsed: u64)
        requires
            old(self).wf(),
        ensures
            final(self).wf(),
            final(self).shots@ == advanced(old(self).shots@, elapsed),
            final(self).x == old(self).x,
            final(self).y == old(self).y,
    {
        let mut kept: Vec<Shot> = Vec::new();
        let mut i: usize = 0;
        while i < self.shots.len()
            invariant
                self.wf(),
                self.shots@ == old(self).shots@,
                self.x == old(self).x,
                self.y == old(self).y,
                i <= self.shots.len(),
                kept.len() <= i,
                kept@ == advanced(self.shots@.take(i as int), elapsed),
                forall|k: int| 0 <= k < kept.len() ==> (#[trigger] kept@[k]).wf(),
            decreases self.shots.len() - i,
        {
            let mut s = self.shots[i];
            assert(self.shots@.take(i as int + 1).drop_last() =~= self.shots@.take(i as int));
            assert(self.shots@[i as int].wf());
            s.update(elapsed);
            if !s.dead() {
                kept.push(s);
            }
            i = i + 1;
        }
        assert(self.shots@.take(i as int) =~= self.shots@);
        self.shots = kept;
    }

    /// Checks each shot that is not exploding against the swarm at its exact
    /// cell: the invaders there are removed and counted, and the shot starts
    /// exploding. Returns the number of invaders hit.
    pub fn detect_hits(&mut self, invaders: &mut Invaders) -> (r: u16)
        requires
            old(self).wf(),
            old(invaders).wf(),
        ensures
            final(self).wf(),
            final(invaders).wf(),
            (final(self).shots@, final(invaders).army@, r as nat)
                == hits_after(old(self).shots@, old(invaders).army@, old(self).shots.len() as nat),
            r as nat + final(invaders).army.len() == old(invaders).army.len(),
            final(self).x == old(self).x,
            final(self).y == old(self).y,
            final(invaders).move_timer == old(invaders).move_timer,
            final(invaders).rightward == old(invaders).rightward,
    {
        let mut total: u16 = 0;
        let mut i: usize = 0;
        while i < self.shots.len()
            invariant
                self.wf(),
                invaders.wf(),
                self.shots.len() == old(self).shots.len(),
                self.x == old(self).x,
                self.y == old(self).y,
                invaders.move_timer == old(invaders).move_timer,
                invaders.rightward == old(invaders).rightward,
                i <= self.shots.len(),
                forall|k: int| i <= k < self.shots.len() ==> #[trigger] self.shots@[k] == old(self).shots@[k],
                (self.shots@, invaders.army@, total as nat) == hits_after(old(self).shots@, old(invaders).army@, i as nat),
                total as nat + invaders.army.len() == old(invaders).army.len(),
                old(invaders).army.len() <= crate::invaders::MAX_ARMY,
            decreases self.shots.len() - i,
        {
            let mut s = self.shots[i];
            assert(s == old(self).shots@[i as int]);
            assert(hits_after(old(self).shots@, old(invaders).army@, (i + 1) as nat) == {
                let shot = old(self).shots@[i as int];
                let c = count_at(invaders.army@, shot.x, shot.y);
                if !shot.exploding && c > 0 {
                    (self.shots@.update(i as int, shot.exploded()), without_at(invaders.army@, shot.x, shot.y), total as nat + c)
                } else {
                    (self.shots@, invaders.army@, total as nat)
                }
            });
            let ghost old_army = invaders.army@;
            if !s.exploding {
                let c = invaders.kill_invader_at(s.x, s.y);
                proof {
                    if c == 0 {
                        crate::invaders::lemma_without_none(old_army, s.x, s.y);
                    }
                }
                if c > 0 {
                    total = total + c;
                    s.explode();
                    self.shots.set(i, s);
                }
            }
            i = i + 1;
        }
        total
    }
}

impl Default for Player {
    fn default() -> (r: Player)
        ensures
            r.wf(),
            r.x == NUM_COLS / 2,
            r.y == NUM_ROWS - 1,
            r.shots.len() == 0,
    {
        Player::new()
    }
}

impl View for Player {
    type V = (usize, usize, Seq<Shot>);

    open spec fn view(&self) -> (usize, usize, Seq<Shot>) {
        (self.x, self.y, self.shots@)
    }
}

impl Drawable for Player {
    open spec fn drawable(&self) -> bool {
        self.wf()
    }

    open spec fn painted(&self, f: Seq<char>) -> Seq<char> {
        paint_shots(painted_at(f, self.x as int, self.y as int, 'A'), self.shots@)
    }

    fn draw(&self, frame: &mut Frame) {
        frame.set(self.x, self.y, 'A');
        let ghost base = frame@;
        let mut i: usize = 0;
        while i < self.shots.len()
            invariant
                self.wf(),
                i <= self.shots.len(),
                frame.wf(),
                frame@ == paint_shots(base, self.shots@.take(i as int)),
            decreases self.shots.len() - i,
        {
            let s = self.shots[i];
            assert(self.shots@.take(i as int + 1).drop_last() =~= self.shots@.take(i as int));
            assert(self.shots@[i as int].wf());
            s.draw(frame);
            i = i + 1;
        }
        assert(self.shots@.take(i as int) =~= self.shots@);
    }
}

} // verus!
