//! The decisions of one tick of the game loop. The loop itself (input,
//! clocks, sound and the channel to the renderer) belongs to the caller, which
//! hands in each key and the elapsed time and carries out the sounds that
//! come back.

use vstd::prelude::*;
use crate::frame::{Drawable, Frame};
use crate::invaders::{at_edge, marched, period_of, Invaders};
use crate::level::{Level, MAX_LEVEL};
use crate::menu::Menu;
use crate::player::{advanced, hits_after, Player, MAX_SHOTS};
use crate::score::Score;
use crate::shot::spawned;
use crate::timer::Timer;
use crate::NUM_COLS;

verus! {

/// Index of the menu option that ends the program.
pub const EXIT_OPTION: usize = 1;

/// A key press, as far as the game tells keys apart.
#[derive(Clone, Copy, Debug, PartialEq, Eq, Structural)]
pub enum Key {
    Up,
    Down,
    Left,
    Right,
    Confirm,
    Quit,
    Other,
}

/// A sound the game asks for.
#[derive(Clone, Copy, Debug, PartialEq, Eq, Structural)]
pub enum Sound {
    Explode,
    Lose,
    Move,
    Pew,
    Startup,
    Win,
}

impl Sound {
    /// The name under which the sound is registered.
    pub fn name(&self) -> (r: &'static str)
        ensures
            *self == Sound::Explode ==> r@ == "explode"@,
            *self == Sound::Lose ==> r@ == "lose"@,
            *self == Sound::Move ==> r@ == "move"@,
            *self == Sound::Pew ==> r@ == "pew"@,
            *self == Sound::Startup ==> r@ == "startup"@,
            *self == Sound::Win ==> r@ == "win"@,
    {
        match self {
            Sound::Explode => "explode",
            Sound::Lose => "lose",
            Sound::Move => "move",
            Sound::Pew => "pew",
            Sound::Startup => "startup",
            Sound::Win => "win",
        }
    }
}

/// Everything one game session owns.
pub struct Game {
    pub player: Player,
    pub invaders: Invaders,
    pub score: Score,
    pub level: Level,
    pub menu: Menu,
    pub in_menu: bool,
}

impl Game {
    pub open spec fn wf(&self) -> bool {
        &&& self.player.wf()
        &&& self.invaders.wf()
        &&& self.level.wf()
        &&& self.menu.wf()
    }

    /// The swarm is as in `other`: same invaders, timer and direction.
    pub open spec fn keeps_swarm(self, other: Game) -> bool {
        &&& self.invaders.army@ == other.invaders.army@
        &&& self.invaders.move_timer == other.invaders.move_timer
        &&& self.invaders.rightward == other.invaders.rightward
    }

    /// The menu is as in `other`: same options and cursor.
    pub open spec fn keeps_menu(self, other: Game) -> bool {
        &&& self.menu.options@ == other.menu.options@
        &&& self.menu.selection == other.menu.selection
    }

    /// Nothing differs from `other`.
    pub open spec fn unchanged_from(self, other: Game) -> bool {
        &&& self.player@ == other.player@
        &&& self.keeps_swarm(other)
        &&& self.keeps_menu(other)
        &&& self.score == other.score
        &&& self.level == other.level
        &&& self.in_menu == other.in_menu
    }

    /// Back at the menu after a lost game that was in state `other`: a fresh
    /// player and swarm, with score, level and menu kept.
    pub open spec fn reset_from(self, other: Game) -> bool {
        &&& self.in_menu
        &&& self.player.is_fresh()
        &&& self.invaders.is_fresh()
        &&& self.keeps_menu(other)
        &&& self.score == other.score
        &&& self.level == other.level
    }

    /// A session at the menu, with a fresh player and swarm, score 0 and the
    /// first level.
    pub fn new() -> (r: Game)
        ensures
            r.wf(),
            r.in_menu,
            r.player.is_fresh(),
            r.invaders.is_fresh(),
            r.score@ == 0,
            r.level@ == 1,
            r.menu.options.len() == 2,
            r.menu.options@[0]@ == "New game"@,
            r.menu.options@[1]@ == "Exit"@,
            r.menu.selection == 0,
    {
        Game {
            player: Player::new(),
            invaders: Invaders::new(),
            score: Score::new(),
            level: Level::new(),
            menu: Menu::new(),
            in_menu: true,
        }
    }

    /// Back to the menu with a fresh player and swarm; score, level and menu
    /// stay.
    pub fn reset_game(&mut self)
        requires
            old(self).wf(),
        ensures
            final(self).wf(),
            final(self).reset_from(*old(self)),
    {
        self.in_menu = true;
        self.player = Player::new();
        self.invaders = Invaders::new();
    }

    /// Applies a key pressed at the menu: up and down move the cursor, and
    /// confirming leaves the menu. Returns false exactly when the confirmed
    /// option is the one that ends the program.
    pub fn handle_menu(&mut self, key: Key) -> (r: bool)
        requires
            old(self).wf(),
        ensures
            final(self).wf(),
            r == !(key == Key::Confirm && old(self).menu.selection == EXIT_OPTION),
            final(self).in_menu == (old(self).in_menu && key != Key::Confirm),
            key == Key::Up ==> final(self).menu.selection == if old(self).menu.selection > 0 {
                old(self).menu.selection - 1
            } else {
                0int
            },
            key == Key::Down ==> final(self).menu.selection == if old(self).menu.selection + 1 < old(self).menu.options.len() {
                old(self).menu.selection + 1
            } else {
                old(self).menu.selection as int
            },
            key != Key::Up && key != Key::Down ==> final(self).menu.selection == old(self).menu.selection,
            final(self).menu.options@ == old(self).menu.options@,
            final(self).player@ == old(self).player@,
            final(self).keeps_swarm(*old(self)),
            final(self).score == old(self).score,
            final(self).level == old(self).level,
    {
        match key {
            Key::Up => {
                self.menu.change_option(true);
            },
            Key::Down => {
                self.menu.change_option(false);
            },
            Key::Confirm => {
                self.in_menu = false;
                if self.menu.selection == EXIT_OPTION {
                    return false;
                }
            },
            _ => {},
        }
        true
    }

    /// Applies a key pressed during play: left and right move the player,
    /// confirming fires (with a sound when a shot leaves), and quitting
    /// returns to the menu with a losing sound. Other keys change nothing.
    pub fn handle_playing(&mut self, key: Key) -> (r: Option<Sound>)
        requires
            old(self).wf(),
        ensures
            final(self).wf(),
            key == Key::Left ==> final(self).player@ == (
                if old(self).player.x > 0 { (old(self).player.x - 1) as usize } else { old(self).player.x },
                old(self).player.y,
                old(self).player.shots@,
            ),
            key == Key::Right ==> final(self).player@ == (
                if old(self).player.x + 1 < NUM_COLS { (old(self).player.x + 1) as usize } else { old(self).player.x },
                old(self).player.y,
                old(self).player.shots@,
            ),
            key == Key::Confirm ==> r == (if old(self).player.shots.len() < MAX_SHOTS {
                Some(Sound::Pew)
            } else {
                None
            }),
            key == Key::Confirm ==> final(self).player@ == if old(self).player.shots.len() < MAX_SHOTS {
                (
                    old(self).player.x,
                    old(self).player.y,
                    old(self).player.shots@.push(spawned(old(self).player.x, (old(self).player.y - 1) as usize)),
                )
            } else {
                old(self).player@
            },
            key == Key::Quit ==> r == Some(Sound::Lose) && final(self).reset_from(*old(self)),
            key != Key::Confirm && key != Key::Quit ==> r.is_none(),
            key == Key::Other ==> final(self).player@ == old(self).player@,
            key != Key::Quit ==> {
                &&& final(self).in_menu == old(self).in_menu
                &&& final(self).keeps_swarm(*old(self))
                &&& final(self).keeps_menu(*old(self))
                &&& final(self).score == old(self).score
                &&& final(self).level == old(self).level
            },
    {
        match key {
            Key::Left => {
                self.player.move_left();
                None
            },
            Key::Right => {
                self.player.move_right();
                None
            },
            Key::Confirm => {
                if self.player.shoot() {
                    Some(Sound::Pew)
                } else {
                    None
                }
            },
            Key::Quit => {
                self.reset_game();
                Some(Sound::Lose)
            },
            _ => None,
        }
    }

    /// Advances the player and the swarm by `elapsed` milliseconds, then
    /// settles the hits and adds them to the score. Returns the sounds to
    /// play: a step of the swarm, then a hit.
    pub fn update_actors(&mut self, elapsed: u64) -> (r: Vec<Sound>)
        requires
            old(self).wf(),
        ensures
            final(self).wf(),
            final(self).level == old(self).level,
            final(self).in_menu == old(self).in_menu,
            ({
                let shots = advanced(old(self).player.shots@, elapsed);
                let army = if old(self).invaders.move_timer.updated(elapsed).ready {
                    marched(old(self).invaders.army@, old(self).invaders.rightward)
                } else {
                    old(self).invaders.army@
                };
                let (s, a, hits) = hits_after(shots, army, shots.len());
                &&& final(self).player.shots@ == s
                &&& final(self).invaders.army@ == a
                &&& final(self).score@ == if old(self).score@ + hits <= u16::MAX {
                    (old(self).score@ + hits) as u16
                } else {
                    u16::MAX
                }
            }),
            final(self).player.x == old(self).player.x,
            final(self).player.y == old(self).player.y,
            final(self).invaders.move_timer == if old(self).invaders.move_timer.updated(elapsed).ready {
                Timer::from_millis_spec(period_of(old(self).invaders.army.len() as nat) as u64)
            } else {
                old(self).invaders.move_timer.updated(elapsed)
            },
            final(self).invaders.rightward == if old(self).invaders.move_timer.updated(elapsed).ready
                && at_edge(old(self).invaders.army@, old(self).invaders.rightward) {
                !old(self).invaders.rightward
            } else {
                old(self).invaders.rightward
            },
            final(self).keeps_menu(*old(self)),
            final(self).invaders.army.len() <= old(self).invaders.army.len(),
            r@.contains(Sound::Move) == old(self).invaders.move_timer.updated(elapsed).ready,
            r@.contains(Sound::Explode) == (final(self).invaders.army.len() < old(self).invaders.army.len()),
            forall|k: int| 0 <= k < r.len() ==> (#[trigger] r@[k] == Sound::Move || r@[k] == Sound::Explode),
            r.len() <= 2,
    {
        let mut sounds: Vec<Sound> = Vec::new();
        self.player.update(elapsed);
        if self.invaders.update(elapsed) {
            sounds.push(Sound::Move);
        }
        let hits = self.player.detect_hits(&mut self.invaders);
        if hits > 0 {
            sounds.push(Sound::Explode);
            self.score.add_points(hits);
        }
        assert(sounds@.contains(Sound::Move) == old(self).invaders.move_timer.updated(elapsed).ready) by {
            if sounds@.contains(Sound::Move) {
                let k = choose|k: int| 0 <= k < sounds.len() && sounds@[k] == Sound::Move;
            }
            if old(self).invaders.move_timer.updated(elapsed).ready {
                assert(sounds@[0] == Sound::Move);
            }
        }
        assert(sounds@.contains(Sound::Explode) == (hits > 0)) by {
            if hits > 0 {
                assert(sounds@[sounds.len() - 1] == Sound::Explode);
            }
        }
        sounds
    }

    /// Settles the end of a tick. A cleared swarm moves the game to the next
    /// level: past the last one the game is won (the result is true, with the
    /// winning sound, and no new swarm), else a fresh swarm comes. A swarm
    /// that has reached the player's row loses the game: back to the menu
    /// with a fresh player and swarm, and the losing sound. Otherwise nothing
    /// changes.
    pub fn handle_results(&mut self) -> (r: (bool, Option<Sound>))
        requires
            old(self).wf(),
        ensures
            final(self).wf(),
            final(self).score == old(self).score,
            old(self).invaders.army.len() == 0 ==> {
                &&& final(self).level@ == if old(self).level@ <= MAX_LEVEL {
                    (old(self).level@ + 1) as u8
                } else {
                    old(self).level@
                }
                &&& r.0 == (final(self).level@ > MAX_LEVEL)
                &&& r.0 ==> r.1 == Some(Sound::Win) && final(self).keeps_swarm(*old(self))
                &&& !r.0 ==> r.1.is_none() && final(self).invaders.is_fresh()
                &&& final(self).player@ == old(self).player@
                &&& final(self).keeps_menu(*old(self))
                &&& final(self).in_menu == old(self).in_menu
            },
            old(self).invaders.army.len() > 0 && old(self).invaders.reached_bottom_spec() ==> r == (false, Some(Sound::Lose))
                && final(self).reset_from(*old(self)),
            old(self).invaders.army.len() > 0 && !old(self).invaders.reached_bottom_spec() ==> r == (false, None::<Sound>)
                && final(self).unchanged_from(*old(self)),
    {
        if self.invaders.all_killed() {
            if self.level.increment_level() {
                return (true, Some(Sound::Win));
            }
            self.invaders = Invaders::new();
            (false, None)
        } else if self.invaders.reached_bottom() {
            self.reset_game();
            (false, Some(Sound::Lose))
        } else {
            (false, None)
        }
    }

    /// Paints the player, the swarm, the score and the level, in that order.
    pub fn draw_actors_to_frame(&self, frame: &mut Frame)
        requires
            self.wf(),
            old(frame).wf(),
        ensures
            final(frame).wf(),
            final(frame)@ == self.level.painted(self.score.painted(self.invaders.painted(self.player.painted(old(frame)@)))),
    {
        self.player.draw(frame);
        self.invaders.draw(frame);
        self.score.draw(frame);
        self.level.draw(frame);
    }
}

} // verus!
