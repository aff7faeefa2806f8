use invaders::frame::{new_frame, Drawable};
use invaders::game::{Game, Key, Sound};
use invaders::invaders::{Invader, Invaders};
use invaders::level::Level;
use invaders::menu::Menu;
use invaders::player::Player;
use invaders::render::changed_cells;
use invaders::score::Score;
use invaders::shot::Shot;
use invaders::timer::Timer;
use invaders::{NUM_COLS, NUM_ROWS, SHOT_PERIOD};

#[test]
fn timer_ready_once_its_duration_is_used_up() {
    let mut timer = Timer::from_millis(500);
    assert!(!timer.ready());
    timer.update(300);
    assert!(!timer.ready());
    assert_eq!(timer.time_left(), 200);
    timer.update(199);
    assert!(!timer.ready());
    timer.update(1);
    assert!(timer.ready());
    assert_eq!(timer.time_left(), 0);
    timer.update(1000);
    assert!(timer.ready());
    timer.reset();
    assert!(!timer.ready());
    assert_eq!(timer.time_left(), 500);
    assert_eq!(timer.duration(), 500);
}

#[test]
fn player_stays_on_grid_under_repeated_moves() {
    let mut player = Player::new();
    for _ in 0..100 {
        player.move_left();
    }
    assert_eq!(player.x, 0);
    for _ in 0..100 {
        player.move_right();
    }
    assert_eq!(player.x, NUM_COLS - 1);
}

#[test]
fn third_shot_changes_nothing() {
    let mut player = Player::new();
    assert!(player.shoot());
    player.move_left();
    assert!(player.shoot());
    let before = player.shots.clone();
    assert!(!player.shoot());
    assert_eq!(player.shots, before);
    assert_eq!(player.shots[0].x, NUM_COLS / 2);
    assert_eq!(player.shots[1].x, NUM_COLS / 2 - 1);
}

#[test]
fn shot_does_not_move_before_its_period_has_passed() {
    let mut shot = Shot::new(3, 7);
    shot.update(SHOT_PERIOD - 1);
    assert_eq!(shot.y, 7);
    shot.update(1);
    assert_eq!(shot.y, 6);
    assert!(!shot.dead());
}

#[test]
fn exploding_shot_stays_put_and_dies_after_explosion() {
    let mut shot = Shot::new(3, 7);
    shot.explode();
    assert!(shot.exploding);
    assert_eq!(shot.timer, Timer::from_millis(250));
    shot.update(249);
    assert_eq!(shot.y, 7);
    assert!(!shot.dead());
    shot.update(1);
    assert_eq!(shot.y, 7);
    assert!(shot.dead());
}

#[test]
fn detect_hits_counts_every_invader_in_the_cell() {
    let mut player = Player::new();
    let x = player.x;
    let y = player.y - 1;
    let mut swarm = Invaders::with_army(vec![Invader::new(x, y), Invader::new(1, 1), Invader::new(x, y)]);
    player.shoot();
    let hits = player.detect_hits(&mut swarm);
    assert_eq!(hits, 2);
    assert!(player.shots[0].exploding);
    assert_eq!(swarm.army, vec![Invader::new(1, 1)]);
    assert_eq!(player.detect_hits(&mut swarm), 0);
}

#[test]
fn detect_hits_misses_leave_the_shot_intact() {
    let mut player = Player::new();
    let mut swarm = Invaders::with_army(vec![Invader::new(1, 1)]);
    player.shoot();
    assert_eq!(player.detect_hits(&mut swarm), 0);
    assert!(!player.shots[0].exploding);
    assert_eq!(swarm.army.len(), 1);
}

#[test]
fn menu_selection_stays_in_range() {
    let mut menu = Menu::new();
    for _ in 0..5 {
        menu.change_option(false);
    }
    assert_eq!(menu.selection, menu.options.len() - 1);
    for _ in 0..5 {
        menu.change_option(true);
    }
    assert_eq!(menu.selection, 0);
}

#[test]
fn menu_writes_its_options() {
    let mut frame = new_frame();
    let menu = Menu::new();
    menu.draw(&mut frame);
    assert_eq!(frame.get(1, 0), 'N');
    assert_eq!(frame.get(8, 0), 'e');
    assert_eq!(frame.get(1, 1), 'E');
    assert_eq!(frame.get(4, 1), 't');
    assert_eq!(frame.get(5, 1), ' ');
}

#[test]
fn empty_swarm_is_all_killed() {
    let swarm = Invaders::with_army(Vec::new());
    assert!(swarm.all_killed());
    assert!(!Invaders::new().all_killed());
    assert!(!swarm.reached_bottom());
}

#[test]
fn passing_the_last_level_wins_without_a_new_swarm() {
    let mut game = Game::new();
    game.in_menu = false;
    game.invaders = Invaders::with_army(Vec::new());
    assert_eq!(game.handle_results(), (false, None));
    assert!(!game.invaders.all_killed());
    game.invaders = Invaders::with_army(Vec::new());
    assert_eq!(game.handle_results(), (false, None));
    game.invaders = Invaders::with_army(Vec::new());
    assert_eq!(game.handle_results(), (true, Some(Sound::Win)));
    assert!(game.invaders.all_killed());
}

#[test]
fn swarm_at_the_bottom_sends_the_game_to_the_menu() {
    let mut game = Game::new();
    game.in_menu = false;
    game.invaders = Invaders::with_army(vec![Invader::new(5, NUM_ROWS - 1)]);
    assert!(game.invaders.reached_bottom());
    assert_eq!(game.handle_results(), (false, Some(Sound::Lose)));
    assert!(game.in_menu);
}

#[test]
fn frames_arrive_in_the_order_sent() {
    let (tx, rx) = std::sync::mpsc::channel();
    let mut sent = Vec::new();
    for i in 0..5usize {
        let mut frame = new_frame();
        frame.set(i, 0, 'x');
        sent.push(frame.clone());
        tx.send(frame).unwrap();
    }
    drop(tx);
    let received: Vec<_> = rx.iter().collect();
    assert_eq!(received, sent);
}

#[test]
fn changed_cells_lists_only_differences() {
    let last = new_frame();
    let mut curr = new_frame();
    curr.set(3, 4, 'A');
    curr.set(0, 1, '|');
    assert_eq!(changed_cells(&last, &curr, false), vec![(0, 1, '|'), (3, 4, 'A')]);
    assert_eq!(changed_cells(&curr, &curr, false), vec![]);
    let all = changed_cells(&last, &curr, true);
    assert_eq!(all.len(), NUM_COLS * NUM_ROWS);
    assert_eq!(all[0], (0, 0, ' '));
    assert_eq!(all[NUM_ROWS + 2], (1, 2, ' '));
}

#[test]
fn score_shows_four_digits_or_more() {
    let mut frame = new_frame();
    let mut score = Score::new();
    score.add_points(1234);
    score.draw(&mut frame);
    let text: String = (0..11).map(|i| frame.get(i, 0)).collect();
    assert_eq!(text, "SCORE: 1234");
    score.add_points(60000);
    score.add_points(60000);
    assert_eq!(score.count(), u16::MAX);
    let mut frame = new_frame();
    score.draw(&mut frame);
    let text: String = (0..12).map(|i| frame.get(i, 0)).collect();
    assert_eq!(text, "SCORE: 65535");
}

#[test]
fn level_shows_two_digits() {
    let mut frame = new_frame();
    let level = Level::new();
    level.draw(&mut frame);
    let text: String = (20..29).map(|i| frame.get(i, 0)).collect();
    assert_eq!(text, "LEVEL: 01");
}

#[test]
fn swarm_marches_then_drops_at_the_edge() {
    let mut swarm = Invaders::with_army(vec![Invader::new(NUM_COLS - 2, 3)]);
    assert_eq!(swarm.move_timer.duration(), 275);
    assert!(!swarm.update(274));
    assert!(swarm.update(1));
    assert_eq!(swarm.army[0], Invader::new(NUM_COLS - 1, 3));
    assert!(swarm.update(275));
    assert_eq!(swarm.army[0], Invader::new(NUM_COLS - 1, 4));
    assert!(!swarm.rightward);
    assert!(swarm.update(275));
    assert_eq!(swarm.army[0], Invader::new(NUM_COLS - 2, 4));
}

#[test]
fn kill_removes_all_invaders_in_the_cell() {
    let mut swarm = Invaders::with_army(vec![Invader::new(2, 2), Invader::new(4, 2), Invader::new(2, 2)]);
    assert_eq!(swarm.kill_invader_at(2, 2), 2);
    assert_eq!(swarm.army, vec![Invader::new(4, 2)]);
    assert_eq!(swarm.kill_invader_at(2, 2), 0);
}

#[test]
fn fresh_swarm_holds_the_formation() {
    let swarm = Invaders::new();
    assert_eq!(swarm.army.len(), 72);
    assert_eq!(swarm.move_timer.duration(), 250 + 25 * 72);
}

#[test]
fn menu_keys_drive_the_selection_and_exit() {
    let mut game = Game::new();
    assert!(game.handle_menu(Key::Down));
    assert_eq!(game.menu.selection, 1);
    assert!(game.in_menu);
    assert!(!game.handle_menu(Key::Confirm));
    assert!(!game.in_menu);
}

#[test]
fn playing_keys_move_fire_and_quit() {
    let mut game = Game::new();
    assert!(game.handle_menu(Key::Confirm));
    assert!(!game.in_menu);
    assert_eq!(game.handle_playing(Key::Left), None);
    assert_eq!(game.player.x, NUM_COLS / 2 - 1);
    assert_eq!(game.handle_playing(Key::Confirm), Some(Sound::Pew));
    assert_eq!(game.handle_playing(Key::Confirm), Some(Sound::Pew));
    assert_eq!(game.handle_playing(Key::Confirm), None);
    assert_eq!(game.handle_playing(Key::Quit), Some(Sound::Lose));
    assert!(game.in_menu);
    assert_eq!(game.player.shots.len(), 0);
}

#[test]
fn update_actors_scores_hits_and_reports_sounds() {
    let mut game = Game::new();
    game.in_menu = false;
    let x = game.player.x;
    game.invaders = Invaders::with_army(vec![Invader::new(x, NUM_ROWS - 2)]);
    game.handle_playing(Key::Confirm);
    let sounds = game.update_actors(1);
    assert_eq!(sounds, vec![Sound::Explode]);
    assert_eq!(game.score.count(), 1);
    assert!(game.invaders.all_killed());
    let mut frame = new_frame();
    game.draw_actors_to_frame(&mut frame);
    assert_eq!(frame.get(x, NUM_ROWS - 1), 'A');
    assert_eq!(frame.get(x, NUM_ROWS - 2), '*');
    assert_eq!(frame.get(10, 0), '1');
}

#[test]
fn sounds_have_their_names() {
    assert_eq!(Sound::Explode.name(), "explode");
    assert_eq!(Sound::Lose.name(), "lose");
    assert_eq!(Sound::Move.name(), "move");
    assert_eq!(Sound::Pew.name(), "pew");
    assert_eq!(Sound::Startup.name(), "startup");
    assert_eq!(Sound::Win.name(), "win");
}

#[test]
fn two_shots_in_one_cell_count_each_invader_once() {
    let mut player = Player::new();
    let x = player.x;
    let y = player.y - 1;
    let mut swarm = Invaders::with_army(vec![Invader::new(x, y)]);
    assert!(player.shoot());
    assert!(player.shoot());
    assert_eq!(player.detect_hits(&mut swarm), 1);
    assert!(player.shots[0].exploding);
    assert!(!player.shots[1].exploding);
    assert!(swarm.all_killed());
}

#[test]
fn quitting_brings_back_a_fresh_player_and_swarm() {
    let mut game = Game::new();
    assert!(game.handle_menu(Key::Confirm));
    game.handle_playing(Key::Right);
    game.handle_playing(Key::Confirm);
    game.update_actors(5000);
    assert_eq!(game.handle_playing(Key::Quit), Some(Sound::Lose));
    let fresh = Player::new();
    assert_eq!((game.player.x, game.player.y), (fresh.x, fresh.y));
    assert_eq!(game.invaders.army, Invaders::new().army);
    assert!(game.invaders.rightward);
    assert_eq!(game.invaders.move_timer, Invaders::new().move_timer);
}
