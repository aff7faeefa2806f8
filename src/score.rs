//! The running score.

use vstd::prelude::*;
use crate::frame::{digit, digit_char, written, Drawable, Frame};

verus! {

/// Four decimal digits of `n`, zero-padded, with a fifth in front where `n`
/// needs it.
pub open spec fn padded_digits(n: u16) -> Seq<char> {
    let v = n as int;
    let tail = seq![digit_char((v / 1000) % 10), digit_char((v / 100) % 10), digit_char((v / 10) % 10), digit_char(v % 10)];
    if v >= 10000 { seq![digit_char(v / 10000)] + tail } else { tail }
}

/// The line that shows score `n`.
pub open spec fn score_text(n: u16) -> Seq<char> {
    seq!['S', 'C', 'O', 'R', 'E', ':', ' '] + padded_digits(n)
}

/// A counter that only grows.
#[derive(Clone, Copy, Debug, PartialEq, Eq, Structural)]
pub struct Score {
    count: u16,
}

impl View for Score {
    type V = u16;

    closed spec fn view(&self) -> u16 {
        self.count
    }
}

impl Score {
    /// A score of zero.
    pub fn new() -> (r: Score)
        ensures
            r@ == 0,
    {
        Score { count: 0 }
    }

    /// Adds `amount`, stopping at the largest value the counter holds.
    pub fn add_points(&mut self, amount: u16)
        ensures
            final(self)@ == if old(self)@ + amount <= u16::MAX { (old(self)@ + amount) as u16 } else { u16::MAX },
            final(self)@ >= old(self)@,
    {
        self.count = self.count.saturating_add(amount);
    }

    /// The current score.
    pub fn count(&self) -> (r: u16)
        ensures
            r == self@,
    {
        self.count
    }
}

impl Default for Score {
    fn default() -> (r: Score)
        ensures
            r@ == 0,
    {
        Score::new()
    }
}

impl Drawable for Score {
    open spec fn drawable(&self) -> bool {
        true
    }

    open spec fn painted(&self, f: Seq<char>) -> Seq<char> {
        written(f, 0, 0, score_text(self@))
    }

    fn draw(&self, frame: &mut Frame) {
        let n = self.count;
        let mut text: Vec<char> = vec!['S', 'C', 'O', 'R', 'E', ':', ' '];
        if n >= 10000 {
            text.push(digit(n / 10000));
        }
        text.push(digit((n / 1000) % 10));
        text.push(digit((n / 100) % 10));
        text.push(digit((n / 10) % 10));
        text.push(digit(n % 10));
        assert(text@ =~= score_text(n));
        frame.write_text(0, 0, &text);
    }
}

} // verus!
