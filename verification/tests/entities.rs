use invader::audio::Sound;
use invader::container::{Direction, Point};
use invader::enemy::{SmallAlien, ALIEN_POINTS};
use invader::ship::Ship;
use invader::weapon::{Bullet, BULLET_INTERVAL, BULLET_SPEED};

#[test]
fn ship_spans_its_length_on_one_row() {
    let ship = Ship::new(3, 29, 3, 1);
    assert_eq!(ship.get_pos(), Point { x: 3, y: 29 });
    assert_eq!(ship.get_container().top, Point { x: 3, y: 29 });
    assert_eq!(ship.get_container().bottom, Point { x: 6, y: 29 });
    assert_eq!(ship.get_width(), 3);
    assert_eq!(ship.get_length(), 3);
    assert_eq!(ship.get_speed(), 1);
    assert_eq!(ship.get_symbol(), "\u{232C}");
    assert!(!ship.is_destroyed());
}

#[test]
fn ship_steps_left_and_right_by_its_speed() {
    let mut ship = Ship::new(10, 5, 3, 2);
    ship.move_ship(Direction::LEFT);
    assert_eq!(ship.get_container().top, Point { x: 8, y: 5 });
    assert_eq!(ship.get_container().bottom, Point { x: 11, y: 5 });
    ship.move_ship(Direction::RIGHT);
    ship.move_ship(Direction::RIGHT);
    assert_eq!(ship.get_container().top, Point { x: 12, y: 5 });
    assert_eq!(ship.get_container().bottom, Point { x: 15, y: 5 });
}

#[test]
fn ship_ignores_up_and_down() {
    let mut ship = Ship::new(10, 5, 3, 1);
    ship.move_ship(Direction::UP);
    ship.move_ship(Direction::DOWN);
    assert_eq!(ship.get_container().top, Point { x: 10, y: 5 });
    assert_eq!(ship.get_container().bottom, Point { x: 13, y: 5 });
}

#[test]
fn ship_does_not_clamp_by_itself() {
    let mut ship = Ship::new(1, 0, 3, 1);
    ship.move_ship(Direction::LEFT);
    assert_eq!(ship.get_pos(), Point { x: 0, y: 0 });
    ship.set_position(1000);
    assert_eq!(ship.get_container().top, Point { x: 1000, y: 0 });
    assert_eq!(ship.get_container().bottom, Point { x: 1003, y: 0 });
}

#[test]
fn ship_destroy_sets_the_flag() {
    let mut ship = Ship::new(3, 3, 3, 1);
    ship.destroy();
    assert!(ship.is_destroyed());
    assert_eq!(ship.get_pos(), Point { x: 3, y: 3 });
}

#[test]
fn alien_is_a_single_cell_worth_ten_points() {
    let alien = SmallAlien::new(6, 3);
    assert_eq!(alien.get_pos(), Point { x: 6, y: 3 });
    assert_eq!(alien.get_container().top, alien.get_container().bottom);
    assert_eq!(alien.get_width(), 0);
    assert_eq!(alien.get_points(), 10);
    assert_eq!(ALIEN_POINTS, 10);
    assert_eq!(alien.get_symbol(), "\u{237E}");
    assert!(!alien.is_destroyed());
}

#[test]
fn alien_fire_asks_for_the_shot_sound() {
    let alien = SmallAlien::new(6, 3);
    assert_eq!(alien.fire(), Sound::Fire);
    assert!(!alien.is_destroyed());
    assert_eq!(alien.get_pos(), Point { x: 6, y: 3 });
}

#[test]
fn alien_destroy_sets_the_flag_and_asks_for_the_hit_sound() {
    let mut alien = SmallAlien::new(6, 3);
    assert_eq!(alien.destroy(), Sound::OnHit);
    assert!(alien.is_destroyed());
    assert_eq!(alien.destroy(), Sound::OnHit);
    assert!(alien.is_destroyed());
    assert_eq!(alien.get_points(), 10);
}

#[test]
fn alien_set_pos_moves_it() {
    let mut alien = SmallAlien::new(6, 3);
    alien.set_pos(&Point { x: 5, y: 4 });
    assert_eq!(alien.get_pos(), Point { x: 5, y: 4 });
    assert_eq!(alien.get_container().bottom, Point { x: 5, y: 4 });
}

#[test]
fn bullet_starts_armed_with_its_defaults() {
    let b = Bullet::new(4, 28, Direction::UP);
    assert_eq!(b.get_pos(), Point { x: 4, y: 28 });
    assert_eq!(b.get_speed(), 1);
    assert_eq!(BULLET_SPEED, 1);
    assert_eq!(b.get_tick_duration(), 30);
    assert_eq!(BULLET_INTERVAL, 30);
    assert_eq!(b.get_direction(), Direction::UP);
    assert_eq!(b.last_bullet_tick, None);
    assert_eq!(b.get_symbol(), "\u{2307}");
    assert!(!b.is_destroyed());
}

#[test]
fn bullet_next_pos_looks_one_step_ahead() {
    let up = Bullet::new(4, 28, Direction::UP);
    assert_eq!(up.next_pos(), Point { x: 4, y: 27 });
    assert_eq!(up.next_row(), Some(27));
    assert_eq!(up.get_pos(), Point { x: 4, y: 28 });
    let down = Bullet::new(6, 4, Direction::DOWN);
    assert_eq!(down.next_pos(), Point { x: 6, y: 5 });
    assert_eq!(down.next_row(), Some(5));
    let mut fast = Bullet::new(6, 4, Direction::DOWN);
    fast.set_speed(3);
    assert_eq!(fast.get_speed(), 3);
    assert_eq!(fast.next_pos(), Point { x: 6, y: 7 });
}

#[test]
fn bullet_next_row_is_none_off_the_grid() {
    let up = Bullet::new(4, 0, Direction::UP);
    assert_eq!(up.next_row(), None);
    let down = Bullet::new(4, usize::MAX, Direction::DOWN);
    assert_eq!(down.next_row(), None);
    let left = Bullet::new(4, 0, Direction::LEFT);
    assert_eq!(left.next_row(), None);
}

#[test]
fn bullet_sideways_directions_travel_up() {
    let left = Bullet::new(4, 9, Direction::LEFT);
    assert_eq!(left.next_pos(), Point { x: 4, y: 8 });
    let right = Bullet::new(4, 9, Direction::RIGHT);
    assert_eq!(right.next_pos(), Point { x: 4, y: 8 });
}

#[test]
fn bullet_first_tick_arms_without_moving() {
    let mut b = Bullet::new(4, 28, Direction::UP);
    let cue = b.move_tick_at(1000);
    assert_eq!(cue, Some(Sound::Fire));
    assert_eq!(b.get_pos(), Point { x: 4, y: 28 });
    assert_eq!(b.last_bullet_tick, Some(1000));
}

#[test]
fn bullet_waits_for_its_interval() {
    let mut b = Bullet::new(4, 28, Direction::UP);
    b.move_tick_at(1000);
    assert_eq!(b.move_tick_at(1029), None);
    assert_eq!(b.get_pos(), Point { x: 4, y: 28 });
    assert_eq!(b.last_bullet_tick, Some(1000));
    assert_eq!(b.move_tick_at(1030), None);
    assert_eq!(b.get_pos(), Point { x: 4, y: 27 });
    assert_eq!(b.last_bullet_tick, Some(1030));
    assert_eq!(b.move_tick_at(1059), None);
    assert_eq!(b.get_pos(), Point { x: 4, y: 27 });
    assert_eq!(b.move_tick_at(1100), None);
    assert_eq!(b.get_pos(), Point { x: 4, y: 26 });
    assert_eq!(b.last_bullet_tick, Some(1100));
}

#[test]
fn bullet_heading_down_advances_down() {
    let mut b = Bullet::new(6, 4, Direction::DOWN);
    b.move_tick_at(0);
    b.move_tick_at(30);
    assert_eq!(b.get_pos(), Point { x: 6, y: 5 });
    b.move_tick_at(60);
    assert_eq!(b.get_pos(), Point { x: 6, y: 6 });
}

#[test]
fn bullet_clock_going_backwards_counts_as_no_time() {
    let mut b = Bullet::new(6, 4, Direction::DOWN);
    b.move_tick_at(500);
    b.move_tick_at(100);
    assert_eq!(b.get_pos(), Point { x: 6, y: 4 });
    assert_eq!(b.last_bullet_tick, Some(500));
}

#[test]
fn bullet_tick_duration_can_be_set() {
    let mut b = Bullet::new(6, 4, Direction::DOWN);
    b.set_tick_duration(100);
    assert_eq!(b.get_tick_duration(), 100);
    b.move_tick_at(0);
    b.move_tick_at(99);
    assert_eq!(b.get_pos(), Point { x: 6, y: 4 });
    b.move_tick_at(100);
    assert_eq!(b.get_pos(), Point { x: 6, y: 5 });
    b.set_tick_duration(0);
    b.move_tick_at(100);
    assert_eq!(b.get_pos(), Point { x: 6, y: 6 });
}

#[test]
fn destroyed_bullet_does_not_advance() {
    let mut b = Bullet::new(6, 4, Direction::DOWN);
    b.move_tick_at(0);
    b.destroy();
    assert!(b.is_destroyed());
    assert_eq!(b.move_tick_at(1000), None);
    assert_eq!(b.get_pos(), Point { x: 6, y: 4 });
    assert_eq!(b.last_bullet_tick, Some(0));
}

#[test]
fn destroyed_armed_bullet_is_armed_by_its_tick() {
    let mut b = Bullet::new(6, 4, Direction::DOWN);
    b.destroy();
    assert_eq!(b.move_tick_at(1000), Some(Sound::Fire));
    assert_eq!(b.last_bullet_tick, Some(1000));
    assert_eq!(b.get_pos(), Point { x: 6, y: 4 });
    assert!(b.is_destroyed());
    assert_eq!(b.get_speed(), 1);
    assert_eq!(b.get_direction(), Direction::DOWN);
    // Once it is moving, it does not advance: it is destroyed.
    assert_eq!(b.move_tick_at(2000), None);
    assert_eq!(b.last_bullet_tick, Some(1000));
    assert_eq!(b.get_pos(), Point { x: 6, y: 4 });
}

#[test]
fn bullet_move_bullet_advances_at_once() {
    let mut b = Bullet::new(6, 4, Direction::UP);
    b.move_bullet();
    assert_eq!(b.get_pos(), Point { x: 6, y: 3 });
    assert_eq!(b.last_bullet_tick, None);
}

#[test]
fn bullet_move_tick_reads_the_clock() {
    let mut b = Bullet::new(6, 4, Direction::DOWN);
    assert_eq!(b.move_tick(), Some(Sound::Fire));
    assert!(b.last_bullet_tick.is_some());
    assert_eq!(b.get_pos(), Point { x: 6, y: 4 });
    b.last_bullet_tick = Some(0);
    assert_eq!(b.move_tick(), None);
    assert_eq!(b.get_pos(), Point { x: 6, y: 5 });
    assert!(b.last_bullet_tick.unwrap() > 0);
}
