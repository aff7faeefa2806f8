use invaders::frame::{new_frame, Drawable};
use invaders::invaders::{Invader, Invaders};
use invaders::level::Level;
use invaders::menu::Menu;
use invaders::player::Player;
use invaders::score::Score;
use invaders::shot::Shot;
use invaders::timer::Timer;
use invaders::{NUM_COLS, NUM_ROWS, SHOT_PERIOD};

#[test]
fn change_option_works_correctly() {
    let mut menu = Menu::new();
    menu.change_option(true);
    assert_eq!(menu.selection, 0);
    menu.change_option(false);
    assert_eq!(menu.selection, 1);
    menu.change_option(false);
    assert_eq!(menu.selection, 1);
    menu.change_option(true);
    assert_eq!(menu.selection, 0);
}

#[test]
fn menu_draws_itself_to_frame_correctly() {
    let mut frame = new_frame();
    let mut menu = Menu::new();
    menu.draw(&mut frame);
    assert_eq!(frame.get(0, 0), '>');
    assert_eq!(frame.get(0, 1), ' ');
    let mut frame = new_frame();
    menu.change_option(false);
    menu.draw(&mut frame);
    assert_eq!(frame.get(0, 0), ' ');
    assert_eq!(frame.get(0, 1), '>');
}

#[test]
fn player_created_correctly() {
    let player = Player::new();
    assert_eq!(player.x, NUM_COLS / 2);
    assert_eq!(player.y, NUM_ROWS - 1);
    assert_eq!(player.shots.len(), 0);
}

#[test]
fn player_moves_left_if_not_at_edge() {
    let mut player = Player::new();
    let starting_pos = player.x;
    player.move_left();
    assert_eq!(player.x, starting_pos - 1);
}

#[test]
fn player_does_not_move_left_at_edge() {
    let starting_pos = 0;
    let mut player = Player::new();
    player.x = starting_pos;
    player.move_left();
    assert_eq!(player.x, starting_pos);
}

#[test]
fn player_moves_right_if_not_at_edge() {
    let mut player = Player::new();
    let starting_pos = player.x;
    player.move_right();
    assert_eq!(player.x, starting_pos + 1);
}

#[test]
fn player_does_not_move_right_at_edge() {
    let starting_pos = NUM_COLS;
    let mut player = Player::new();
    player.x = starting_pos;
    player.move_right();
    assert_eq!(player.x, starting_pos);
}

#[test]
fn shot_created_when_player_shoots() {
    let mut player = Player::new();
    assert!(player.shoot());
    assert_eq!(player.shots.len(), 1);
    let shot = player.shots.pop().unwrap();
    assert_eq!(shot.x, player.x);
    assert_eq!(shot.y, player.y - 1);
}

#[test]
fn shot_not_created_when_player_shoots_more_than_two() {
    let mut player = Player::new();
    player.shoot();
    player.shoot();
    assert!(!player.shoot());
    assert_eq!(player.shots.len(), 2);
}

#[test]
fn shot_expires_after_specified_time() {
    let mut player = Player::new();
    player.shoot();
    let shot = player.shots.last_mut().unwrap();
    shot.explode();
    player.update(1000);
    assert_eq!(player.shots.len(), 0);
}

#[test]
fn player_hits_invader_directly_above_when_shooting() {
    let mut player = Player::new();
    let mut invaders: Invaders = Invaders::new();
    let x = player.x;
    let y = player.y - 1;
    let invader = Invader::new(x, y);
    invaders.army.push(invader);

    player.shoot();

    let score = player.detect_hits(&mut invaders);
    assert_eq!(score, 1);
}

#[test]
fn player_does_not_hit_invaders_too_far_away() {
    let mut player = Player::new();
    let mut invaders: Invaders = Invaders::new();
    let score: u16;
    player.shoot();
    player.update(SHOT_PERIOD);

    score = player.detect_hits(&mut invaders);
    assert_eq!(score, 0);
}

#[test]
fn player_can_draw_itself_into_a_frame_correctly() {
    let mut frame = new_frame();
    let mut player = Player::new();
    player.shoot();
    player.draw(&mut frame);
    assert_eq!(frame.get(player.x, player.y), 'A');
    assert_eq!(frame.get(player.x, player.y - 1), '|');
}

#[test]
fn score_correctly_drawn_to_the_frame() {
    let mut frame = new_frame();
    let mut score = Score::new();
    score.draw(&mut frame);
    assert_eq!(frame.get(10, 0), '0');

    let mut frame = new_frame();
    score.add_points(5);
    score.draw(&mut frame);
    assert_eq!(frame.get(10, 0), '5');
}

#[test]
fn shot_created_with_correct_attributes() {
    let shot = Shot::new(4, 5);
    assert_eq!(shot.x, 4);
    assert_eq!(shot.y, 5);
    assert_eq!(shot.exploding, false);
    assert_eq!(shot.timer, Timer::from_millis(50))
}

#[test]
fn shot_moves_up_the_y_axis() {
    const X: usize = 0;
    const Y: usize = 5;
    let mut shot = Shot::new(X, Y);
    shot.update(SHOT_PERIOD + 1);
    assert_eq!(shot.y, Y - 1);
}

#[test]
fn shot_dead_at_zero_on_y_axis() {
    const X: usize = 0;
    const Y: usize = 1;
    let mut shot = Shot::new(X, Y);
    shot.update(SHOT_PERIOD + 1);
    assert!(shot.dead());
}

#[test]
fn level_passes_its_cap_on_the_last_increment() {
    let mut level = Level::new();
    assert!(!level.increment_level());
    assert!(!level.increment_level());
    assert!(level.increment_level());
    assert_eq!(level.level(), 4);
}
