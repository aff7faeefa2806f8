//! The menu shown before a game: a list of options and a cursor.

use vstd::prelude::*;
use crate::frame::{painted_at, written, Drawable, Frame};
use crate::{NUM_COLS, NUM_ROWS};

verus! {

/// The cells `f` with option `k` of `options` written on row `k` from
/// column 1, for every option in turn.
pub open spec fn paint_options(f: Seq<char>, options: Seq<String>) -> Seq<char>
    decreases options.len(),
{
    if options.len() == 0 {
        f
    } else {
        written(paint_options(f, options.drop_last()), 1, options.len() - 1, options.last()@)
    }
}

pub struct Menu {
    pub options: Vec<String>,
    pub selection: usize,
}

impl Menu {
    /// At least one option, each fitting on a row beside the cursor, no more
    /// options than rows, and the cursor on an option.
    pub open spec fn wf(&self) -> bool {
        &&& 1 <= self.options.len() <= NUM_ROWS
        &&& forall|k: int| 0 <= k < self.options.len() ==> (#[trigger] self.options@[k])@.len() + 1 <= NUM_COLS
        &&& self.selection < self.options.len()
    }

    /// The options "New game" and "Exit", the first selected.
    pub fn new() -> (r: Menu)
        ensures
            r.wf(),
            r.options.len() == 2,
            r.options@[0]@ == "New game"@,
            r.options@[1]@ == "Exit"@,
            r.selection == 0,
    {
        let options: Vec<String> = vec![String::from_str("New game"), String::from_str("Exit")];
        proof {
            reveal_strlit("New game");
            reveal_strlit("Exit");
        }
        Menu { options, selection: 0 }
    }

    /// Moves the cursor one option up or down, staying on the first or the
    /// last option at the ends.
    pub fn change_option(&mut self, upwards: bool)
        requires
            old(self).wf(),
        ensures
            final(self).wf(),
            final(self).options@ == old(self).options@,
            final(self).selection == if upwards {
                if old(self).selection > 0 { old(self).selection - 1 } else { 0int }
            } else {
                if old(self).selection + 1 < old(self).options.len() { old(self).selection + 1 } else { old(self).selection as int }
            },
    {
        if upwards && self.selection > 0 {
            self.selection = self.selection - 1;
        } else if !upwards && self.selection < self.options.len() - 1 {
            self.selection = self.selection + 1;
        }
    }
}

impl Default for Menu {
    fn default() -> (r: Menu)
        ensures
            r.wf(),
            r.selection == 0,
    {
        Menu::new()
    }
}

impl Drawable for Menu {
    open spec fn drawable(&self) -> bool {
        self.wf()
    }

    open spec fn painted(&self, f: Seq<char>) -> Seq<char> {
        paint_options(painted_at(f, 0, self.selection as int, '>'), self.options@)
    }

    fn draw(&self, frame: &mut Frame) {
        frame.set(0, self.selection, '>');
        let ghost base = frame@;
        let mut k: usize = 0;
        while k < self.options.len()
            invariant
                self.wf(),
                k <= self.options.len(),
                frame.wf(),
                frame@ == paint_options(base, self.options@.take(k as int)),
            decreases self.options.len() - k,
        {
            assert(self.options@.take(k as int + 1).drop_last() =~= self.options@.take(k as int));
            let option = self.options[k].as_str();
            let n = option.unicode_len();
            assert(option@ == self.options@[k as int]@);
            let ghost start = frame@;
            let mut i: usize = 0;
            while i < n
                invariant
                    frame.wf(),
                    i <= n,
                    n == option@.len(),
                    n + 1 <= NUM_COLS,
                    k < NUM_ROWS,
                    frame@ == written(start, 1, k as int, option@.take(i as int)),
                decreases n - i,
            {
                assert(option@.take(i as int + 1).drop_last() =~= option@.take(i as int));
                frame.set(i + 1, k, option.get_char(i));
                i = i + 1;
            }
            assert(option@.take(i as int) =~= option@);
            k = k + 1;
        }
        assert(self.options@.take(k as int) =~= self.options@);
    }
}

} // verus!
