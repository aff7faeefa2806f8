//! A countdown driven by the elapsed time that its owner hands it.

use vstd::prelude::*;

verus! {

/// A countdown over milliseconds. It becomes ready once the time handed to
/// `update` since the last reset has used up the configured duration, that
/// is, once no time is left.
#[derive(Clone, Copy, Debug, PartialEq, Eq, Structural)]
pub struct Timer {
    pub duration: u64,
    pub time_left: u64,
    pub ready: bool,
}

impl Timer {
    /// A positive duration, remaining time never above it, and ready exactly
    /// when no time is left.
    pub open spec fn wf(&self) -> bool {
        &&& 0 < self.duration
        &&& self.time_left <= self.duration
        &&& self.ready <==> self.time_left == 0
    }

    /// The timer as `update(elapsed)` leaves it.
    pub open spec fn updated(self, elapsed: u64) -> Timer {
        let left: u64 = if self.time_left > elapsed { (self.time_left - elapsed) as u64 } else { 0 };
        Timer { time_left: left, ready: left == 0, ..self }
    }

    /// The timer as `reset()` leaves it.
    pub open spec fn restarted(self) -> Timer {
        Timer { duration: self.duration, time_left: self.duration, ready: false }
    }

    /// A fresh countdown of `ms` milliseconds.
    pub open spec fn from_millis_spec(ms: u64) -> Timer {
        Timer { duration: ms, time_left: ms, ready: false }
    }

    /// A fresh countdown of `ms` milliseconds, not ready.
    pub fn from_millis(ms: u64) -> (r: Timer)
        ensures
            r == Timer::from_millis_spec(ms),
            ms > 0 ==> r.wf(),
    {
        Timer { duration: ms, time_left: ms, ready: false }
    }

    /// Counts `elapsed` milliseconds down, stopping at zero; the timer is
    /// ready exactly when no time is left.
    pub fn update(&mut self, elapsed: u64)
        ensures
            *final(self) == old(self).updated(elapsed),
            old(self).wf() ==> final(self).wf(),
    {
        if self.time_left > elapsed {
            self.time_left = self.time_left - elapsed;
        } else {
            self.time_left = 0;
        }
        self.ready = self.time_left == 0;
    }

    /// Restores the configured duration and clears `ready`.
    pub fn reset(&mut self)
        ensures
            *final(self) == old(self).restarted(),
            old(self).wf() ==> final(self).wf(),
    {
        self.time_left = self.duration;
        self.ready = false;
    }

    pub fn ready(&self) -> (r: bool)
        ensures
            r == self.ready,
    {
        self.ready
    }

    pub fn duration(&self) -> (r: u64)
        ensures
            r == self.duration,
    {
        self.duration
    }

    pub fn time_left(&self) -> (r: u64)
        ensures
            r == self.time_left,
    {
        self.time_left
    }
}

/// Total of a sequence of elapsed times.
pub open spec fn total(steps: Seq<u64>) -> nat
    decreases steps.len(),
{
    if steps.len() == 0 { 0 } else { (total(steps.drop_last()) + steps.last()) as nat }
}

/// The timer after `update` has been called with each of `steps` in turn.
pub open spec fn run(t: Timer, steps: Seq<u64>) -> Timer
    decreases steps.len(),
{
    if steps.len() == 0 { t } else { run(t, steps.drop_last()).updated(steps.last()) }
}

/// A reset timer of positive duration is not ready; after a series of
/// updates it is ready exactly when their total has reached the duration, and
/// until then the time left is the duration less that total.
pub proof fn lemma_ready_after_total(t: Timer, steps: Seq<u64>)
    requires
        t.duration > 0,
    ensures
        !t.restarted().ready,
        run(t.restarted(), steps).ready <==> total(steps) >= t.duration,
        run(t.restarted(), steps).time_left == (if total(steps) >= t.duration {
            0
        } else {
            t.duration - total(steps)
        }),
    decreases steps.len(),
{
    if steps.len() > 0 {
        lemma_ready_after_total(t, steps.drop_last());
    }
}

/// A ready timer stays ready whatever time is handed to it afterwards.
pub proof fn lemma_ready_stays(t: Timer, steps: Seq<u64>)
    requires
        t.wf(),
        t.ready,
    ensures
        run(t, steps).ready,
        run(t, steps).time_left == 0,
    decreases steps.len(),
{
    if steps.len() > 0 {
        lemma_ready_stays(t, steps.drop_last());
    }
}

} // verus!
