//! The picture of one tick: a grid of characters, column by column.

use vstd::prelude::*;
use crate::{NUM_COLS, NUM_ROWS};

verus! {

/// Position of cell (x, y) in the flat, column-major cell sequence.
pub open spec fn cell_index(x: int, y: int) -> int {
    x * NUM_ROWS + y
}

/// Whether (x, y) lies on the grid.
pub open spec fn on_grid(x: int, y: int) -> bool {
    0 <= x < NUM_COLS && 0 <= y < NUM_ROWS
}

/// The cells `f` after writing `c` at (x, y).
pub open spec fn painted_at(f: Seq<char>, x: int, y: int, c: char) -> Seq<char> {
    f.update(cell_index(x, y), c)
}

/// The cells `f` after writing `t` along row `y`, its first character at column `x0`.
pub open spec fn written(f: Seq<char>, x0: int, y: int, t: Seq<char>) -> Seq<char>
    decreases t.len(),
{
    if t.len() == 0 {
        f
    } else {
        painted_at(written(f, x0, y, t.drop_last()), x0 + t.len() - 1, y, t.last())
    }
}

/// The character that shows decimal digit `d`.
pub open spec fn digit_char(d: int) -> char {
    if d == 0 { '0' } else if d == 1 { '1' } else if d == 2 { '2' } else if d == 3 { '3' }
    else if d == 4 { '4' } else if d == 5 { '5' } else if d == 6 { '6' } else if d == 7 { '7' }
    else if d == 8 { '8' } else { '9' }
}

/// The character that shows decimal digit `d`.
pub fn digit(d: u16) -> (c: char)
    requires
        d < 10,
    ensures
        c == digit_char(d as int),
{
    if d == 0 { '0' } else if d == 1 { '1' } else if d == 2 { '2' } else if d == 3 { '3' }
    else if d == 4 { '4' } else if d == 5 { '5' } else if d == 6 { '6' } else if d == 7 { '7' }
    else if d == 8 { '8' } else { '9' }
}

/// The blank grid.
pub open spec fn blank() -> Seq<char> {
    Seq::new((NUM_COLS * NUM_ROWS) as nat, |i: int| ' ')
}

/// A screen of NUM_COLS x NUM_ROWS characters, indexed by (column, row).
#[derive(Clone, Debug, PartialEq, Eq)]
pub struct Frame {
    cells: Vec<char>,
}

impl View for Frame {
    type V = Seq<char>;

    closed spec fn view(&self) -> Seq<char> {
        self.cells@
    }
}

impl Frame {
    /// The frame holds exactly one cell per grid position.
    pub open spec fn wf(&self) -> bool {
        self@.len() == NUM_COLS * NUM_ROWS
    }

    /// The character at (x, y).
    pub fn get(&self, x: usize, y: usize) -> (c: char)
        requires
            self.wf(),
            on_grid(x as int, y as int),
        ensures
            c == self@[cell_index(x as int, y as int)],
    {
        self.cells[x * NUM_ROWS + y]
    }

    /// Writes `c` at (x, y).
    pub fn set(&mut self, x: usize, y: usize, c: char)
        requires
            old(self).wf(),
            on_grid(x as int, y as int),
        ensures
            final(self).wf(),
            final(self)@ == painted_at(old(self)@, x as int, y as int, c),
    {
        self.cells.set(x * NUM_ROWS + y, c);
    }
}

impl Frame {
    /// Writes `text` along row `y`, its first character at column `x0`.
    pub fn write_text(&mut self, x0: usize, y: usize, text: &Vec<char>)
        requires
            old(self).wf(),
            x0 + text.len() <= NUM_COLS,
            y < NUM_ROWS,
        ensures
            final(self).wf(),
            final(self)@ == written(old(self)@, x0 as int, y as int, text@),
    {
        let mut i: usize = 0;
        while i < text.len()
            invariant
                self.wf(),
                i <= text.len(),
                x0 + text.len() <= NUM_COLS,
                y < NUM_ROWS,
                self@ == written(old(self)@, x0 as int, y as int, text@.take(i as int)),
            decreases text.len() - i,
        {
            assert(text@.take(i as int + 1).drop_last() =~= text@.take(i as int));
            self.set(x0 + i, y, text[i]);
            i = i + 1;
        }
        assert(text@.take(i as int) =~= text@);
    }
}

/// A frame with every cell blank.
pub fn new_frame() -> (f: Frame)
    ensures
        f.wf(),
        f@ == blank(),
{
    let n: usize = NUM_COLS * NUM_ROWS;
    let mut cells: Vec<char> = Vec::new();
    while cells.len() < n
        invariant
            cells.len() <= n,
            forall|i: int| 0 <= i < cells.len() ==> cells@[i] == ' ',
        decreases n - cells.len(),
    {
        cells.push(' ');
    }
    let f = Frame { cells };
    assert(f@ =~= blank());
    f
}

/// Something that paints itself onto a frame.
pub trait Drawable {
    /// The conditions under which the value can be painted.
    spec fn drawable(&self) -> bool;

    /// The cells of `f` once the value has been painted onto it.
    spec fn painted(&self, f: Seq<char>) -> Seq<char>;

    fn draw(&self, frame: &mut Frame)
        requires
            self.drawable(),
            old(frame).wf(),
        ensures
            final(frame).wf(),
            final(frame)@ == self.painted(old(frame)@),
    ;
}

} // verus!
