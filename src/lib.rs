//! A fixed-grid arcade game core: entities, timers, collision, the menu and
//! the per-tick decisions of the game loop, with the frame buffers that carry
//! each tick's picture to a renderer.

pub mod frame;
pub mod game;
pub mod invaders;
pub mod level;
pub mod menu;
pub mod player;
pub mod render;
pub mod score;
pub mod shot;
pub mod timer;

use vstd::prelude::*;

verus! {

/// Number of rows of the playing grid.
pub const NUM_ROWS: usize = 20;

/// Number of columns of the playing grid.
pub const NUM_COLS: usize = 40;

/// Time in milliseconds between two upward steps of a shot.
pub const SHOT_PERIOD: u64 = 50;

} // verus!
