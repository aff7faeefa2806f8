//! What a renderer must write to turn one frame into the next.

use vstd::prelude::*;
use crate::frame::{Frame};
use crate::{NUM_COLS, NUM_ROWS};

verus! {

/// One cell to write: column, row and character.
pub type CellChange = (usize, usize, char);

/// The writes among the first `n` cells, in column-major order: every cell
/// when `force` holds, else those whose character differs between `last` and
/// `curr`.
pub open spec fn changes_upto(last: Seq<char>, curr: Seq<char>, force: bool, n: nat) -> Seq<CellChange>
    decreases n,
{
    if n == 0 {
        Seq::empty()
    } else {
        let i = n - 1;
        let prev = changes_upto(last, curr, force, i as nat);
        if force || last[i] != curr[i] {
            prev.push(((i / NUM_ROWS as int) as usize, (i % NUM_ROWS as int) as usize, curr[i]))
        } else {
            prev
        }
    }
}

/// The cells to write to turn the picture `last` into `curr`, in
/// column-major order; every cell when `force` holds (a full redraw).
pub fn changed_cells(last: &Frame, curr: &Frame, force: bool) -> (r: Vec<CellChange>)
    requires
        last.wf(),
        curr.wf(),
    ensures
        r@ == changes_upto(last@, curr@, force, (NUM_COLS * NUM_ROWS) as nat),
{
    let mut r: Vec<CellChange> = Vec::new();
    let mut x: usize = 0;
    while x < NUM_COLS
        invariant
            last.wf(),
            curr.wf(),
            x <= NUM_COLS,
            r@ == changes_upto(last@, curr@, force, (x * NUM_ROWS) as nat),
        decreases NUM_COLS - x,
    {
        let mut y: usize = 0;
        while y < NUM_ROWS
            invariant
                last.wf(),
                curr.wf(),
                x < NUM_COLS,
                y <= NUM_ROWS,
                r@ == changes_upto(last@, curr@, force, (x * NUM_ROWS + y) as nat),
            decreases NUM_ROWS - y,
        {
            let c = curr.get(x, y);
            let i: usize = x * NUM_ROWS + y;
            assert(i as int / NUM_ROWS as int == x && i as int % NUM_ROWS as int == y);
            if force || last.get(x, y) != c {
                r.push((x, y, c));
            }
            y = y + 1;
        }
        x = x + 1;
    }
    r
}

} // verus!
