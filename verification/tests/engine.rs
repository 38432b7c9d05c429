use invader::audio::Sound;
use invader::container::{Direction, Point};
use invader::game::{fits_formation, fits_window, Game, GameCondition};

// A window of 64 by 32 cells has its playable area from (2, 2) to (42, 30).
// The ship enters at (3, 29) and spans the columns 3 to 6. A formation of
// one starts at (6, 3).

fn positions(game: &Game) -> Vec<(usize, usize)> {
    game.get_enemies().iter().map(|e| (e.get_pos().x, e.get_pos().y)).collect()
}

#[test]
fn containers_for_the_default_window() {
    let (window, area) = Game::build_containers(64, 32);
    assert_eq!(window.top, Point { x: 0, y: 0 });
    assert_eq!(window.bottom, Point { x: 64, y: 32 });
    assert_eq!(window.padding_horizontal, 2);
    assert_eq!(window.padding_vertical, 2);
    assert_eq!(area.top, Point { x: 2, y: 2 });
    assert_eq!(area.bottom, Point { x: 42, y: 30 });
    assert_eq!(area.padding_horizontal, 0);
    assert_eq!(area.padding_vertical, 0);
}

#[test]
fn containers_round_seven_tenths_down() {
    let (_, area) = Game::build_containers(128, 32);
    assert_eq!(area.bottom, Point { x: 87, y: 30 });
    let (_, area) = Game::build_containers(10, 4);
    assert_eq!(area.bottom, Point { x: 5, y: 2 });
    let (_, area) = Game::build_containers(6, 4);
    assert_eq!(area.top, Point { x: 2, y: 2 });
    assert_eq!(area.bottom, Point { x: 2, y: 2 });
    let (_, area) = Game::build_containers(19, 9);
    assert_eq!(area.bottom, Point { x: 11, y: 7 });
}

#[test]
fn containers_for_the_widest_window() {
    let (window, area) = Game::build_containers(usize::MAX, usize::MAX);
    assert_eq!(window.bottom, Point { x: usize::MAX, y: usize::MAX });
    assert_eq!(area.bottom.x, usize::MAX / 10 * 7 + 3 - 2);
    assert_eq!(area.bottom.y, usize::MAX - 2);
}

#[test]
fn new_game_starts_as_configured() {
    let game = Game::new_at(64, 32, 7, 3, 2, 3, 1000);
    assert_eq!(game.get_score(), 7);
    assert_eq!(game.get_lives(), 3);
    assert_eq!(game.get_max_lives(), 3);
    assert_eq!(game.get_enemies_rows_cols(), (2, 3));
    assert_eq!(game.get_window().bottom, Point { x: 64, y: 32 });
    assert_eq!(game.get_playablearea().bottom, Point { x: 42, y: 30 });
    assert!(game.get_bullet().is_none());
    assert!(game.get_enemy_bullets().is_empty());
    assert_eq!(game.get_ship().get_container().top, Point { x: 3, y: 29 });
    assert_eq!(game.get_ship().get_container().bottom, Point { x: 6, y: 29 });
    assert_eq!(game.get_ship().get_length(), 3);
    assert!(game.can_tick());
}

#[test]
fn formation_is_built_row_by_row_with_a_gap() {
    let game = Game::new_at(64, 32, 0, 3, 2, 3, 0);
    assert_eq!(
        positions(&game),
        vec![(6, 3), (8, 3), (10, 3), (6, 4), (8, 4), (10, 4)]
    );
    assert!(game.get_enemies().iter().all(|e| !e.is_destroyed()));
    assert!(game.get_enemies().iter().all(|e| e.get_points() == 10));
}

#[test]
fn init_enemy_shifts_the_formation_by_its_offsets() {
    let mut game = Game::new_at(64, 32, 0, 3, 2, 2, 0);
    game.init_enemy(1, 5);
    assert_eq!(positions(&game), vec![(8, 8), (10, 8), (8, 9), (10, 9)]);
    game.init_enemy(0, 0);
    assert_eq!(positions(&game), vec![(6, 3), (8, 3), (6, 4), (8, 4)]);
}

#[test]
fn default_game_has_five_rows_of_eleven() {
    let game = Game::default();
    assert_eq!(game.get_enemies_rows_cols(), (5, 11));
    assert_eq!(game.get_enemies().len(), 55);
    assert_eq!(game.get_lives(), 3);
    assert_eq!(game.get_score(), 0);
    assert_eq!(game.get_window().bottom, Point { x: 64, y: 32 });
    assert_eq!(game.get_enemies()[54].get_pos(), Point { x: 26, y: 7 });
}

#[test]
fn set_window_leaves_the_entities() {
    let mut game = Game::new_at(64, 32, 0, 3, 1, 2, 0);
    game.set_window(128, 40);
    assert_eq!(game.get_window().bottom, Point { x: 128, y: 40 });
    assert_eq!(game.get_playablearea().top, Point { x: 2, y: 2 });
    assert_eq!(game.get_playablearea().bottom, Point { x: 87, y: 38 });
    assert_eq!(game.get_ship().get_pos(), Point { x: 3, y: 29 });
    assert_eq!(positions(&game), vec![(6, 3), (8, 3)]);
    game.init_ship();
    assert_eq!(game.get_ship().get_pos(), Point { x: 3, y: 37 });
}

#[test]
fn rows_and_cols_are_clamped_to_the_playable_area() {
    let mut game = Game::new_at(64, 32, 0, 3, 1, 1, 0);
    game.set_enemy_rows_cols(100, 100);
    assert_eq!(game.get_enemies_rows_cols(), (27, 39));
    assert_eq!(game.get_enemies().len(), 27 * 39);
    game.set_enemy_rows_cols(27, 39);
    assert_eq!(game.get_enemies_rows_cols(), (27, 39));
    game.set_enemy_rows_cols(26, 38);
    assert_eq!(game.get_enemies_rows_cols(), (26, 38));
    game.set_enemy_rows_cols(5, 2);
    assert_eq!(game.get_enemies_rows_cols(), (5, 2));
    assert_eq!(game.get_enemies().len(), 10);
    game.set_enemy_rows_cols(0, 0);
    assert_eq!(game.get_enemies_rows_cols(), (0, 0));
    assert!(game.get_enemies().is_empty());
}

#[test]
fn rows_and_cols_clamp_to_none_on_an_empty_area() {
    let mut game = Game::new_at(6, 4, 0, 3, 0, 0, 0);
    assert_eq!(game.get_playablearea().bottom, Point { x: 2, y: 2 });
    game.set_enemy_rows_cols(3, 3);
    assert_eq!(game.get_enemies_rows_cols(), (0, 0));
}

#[test]
fn setting_rows_and_cols_forgets_destroyed_enemies() {
    let mut game = frozen_duel();
    for n in 0..=24u64 {
        game.tick_at(30 * n, 0);
    }
    assert!(game.get_enemies()[0].is_destroyed());
    game.set_enemy_rows_cols(1, 1);
    assert!(!game.get_enemies()[0].is_destroyed());
    assert_eq!(positions(&game), vec![(6, 3)]);
}

#[test]
fn score_and_lives_setters() {
    let mut game = Game::new_at(64, 32, 0, 3, 1, 1, 0);
    game.set_score(40);
    game.add_score(2);
    assert_eq!(game.get_score(), 42);
    game.add_score(u64::MAX - 42);
    assert_eq!(game.get_score(), u64::MAX);
    game.set_score(0);
    game.add_score(0);
    assert_eq!(game.get_score(), 0);
    game.set_lives(9);
    assert_eq!(game.get_lives(), 9);
    assert_eq!(game.get_max_lives(), 3);
}

#[test]
fn formation_waits_for_its_interval() {
    let mut game = Game::new_at(64, 32, 0, 3, 1, 2, 1000);
    game.move_enemy_at(1199);
    assert_eq!(positions(&game), vec![(6, 3), (8, 3)]);
    game.move_enemy_at(1200);
    assert_eq!(positions(&game), vec![(5, 3), (7, 3)]);
    game.move_enemy_at(1399);
    assert_eq!(positions(&game), vec![(5, 3), (7, 3)]);
    game.move_enemy_at(1400);
    assert_eq!(positions(&game), vec![(4, 3), (6, 3)]);
}

#[test]
fn formation_turns_once_at_the_left_edge() {
    let mut game = Game::new_at(64, 32, 0, 3, 1, 2, 0);
    game.move_enemy_at(200);
    game.move_enemy_at(400);
    game.move_enemy_at(600);
    assert_eq!(positions(&game), vec![(3, 3), (5, 3)]);
    // An enemy stands in column 3, one right of the boundary: the formation
    // turns, goes down a row and steps in the new direction.
    game.move_enemy_at(800);
    assert_eq!(positions(&game), vec![(4, 4), (6, 4)]);
    // No enemy stands at an edge any more: it goes on to the right.
    game.move_enemy_at(1000);
    assert_eq!(positions(&game), vec![(5, 4), (7, 4)]);
    game.move_enemy_at(1200);
    assert_eq!(positions(&game), vec![(6, 4), (8, 4)]);
}

#[test]
fn formation_turns_at_the_right_edge() {
    // The playable area of a window of 20 columns ends at column 12.
    let mut game = Game::new_at(20, 32, 0, 3, 1, 2, 0);
    assert_eq!(game.get_playablearea().bottom.x, 12);
    game.move_enemy_at(200);
    game.move_enemy_at(400);
    game.move_enemy_at(600);
    game.move_enemy_at(800);
    assert_eq!(positions(&game), vec![(4, 4), (6, 4)]);
    let mut now = 800;
    for _ in 0..5 {
        now += 200;
        game.move_enemy_at(now);
    }
    assert_eq!(positions(&game), vec![(9, 4), (11, 4)]);
    // Column 11 is one left of the boundary: the formation turns back.
    game.move_enemy_at(now + 200);
    assert_eq!(positions(&game), vec![(8, 5), (10, 5)]);
    game.move_enemy_at(now + 400);
    assert_eq!(positions(&game), vec![(7, 5), (9, 5)]);
}

#[test]
fn destroyed_enemies_move_with_the_formation() {
    let mut game = frozen_duel();
    for n in 0..=24u64 {
        game.tick_at(30 * n, 0);
    }
    assert!(game.get_enemies()[0].is_destroyed());
    game.move_enemy_at(2_000_000);
    assert_eq!(positions(&game), vec![(5, 3)]);
    assert!(game.get_enemies()[0].is_destroyed());
}

#[test]
fn ship_stops_at_the_left_boundary() {
    let mut game = Game::new_at(64, 32, 0, 3, 1, 1, 0);
    game.move_ship(Direction::LEFT);
    assert_eq!(game.get_ship().get_container().top, Point { x: 2, y: 29 });
    assert_eq!(game.get_ship().get_container().bottom, Point { x: 5, y: 29 });
    game.move_ship(Direction::LEFT);
    assert_eq!(game.get_ship().get_container().top, Point { x: 2, y: 29 });
    assert_eq!(game.get_ship().get_container().bottom, Point { x: 5, y: 29 });
}

#[test]
fn ship_stops_at_the_right_boundary() {
    let mut game = Game::new_at(64, 32, 0, 3, 1, 1, 0);
    for _ in 0..36 {
        game.move_ship(Direction::RIGHT);
    }
    assert_eq!(game.get_ship().get_container().top, Point { x: 39, y: 29 });
    assert_eq!(game.get_ship().get_container().bottom, Point { x: 42, y: 29 });
    game.move_ship(Direction::RIGHT);
    assert_eq!(game.get_ship().get_container().top, Point { x: 39, y: 29 });
    assert_eq!(game.get_ship().get_container().bottom, Point { x: 42, y: 29 });
    game.move_ship(Direction::LEFT);
    assert_eq!(game.get_ship().get_container().top, Point { x: 38, y: 29 });
}

#[test]
fn ship_does_not_move_up_or_down() {
    let mut game = Game::new_at(64, 32, 0, 3, 1, 1, 0);
    game.move_ship(Direction::UP);
    game.move_ship(Direction::DOWN);
    assert_eq!(game.get_ship().get_container().top, Point { x: 3, y: 29 });
}

#[test]
fn fire_puts_a_bullet_above_the_middle_of_the_ship() {
    let mut game = Game::new_at(64, 32, 0, 3, 1, 1, 0);
    game.fire_bullet();
    let bullet = game.get_bullet().as_ref().unwrap();
    assert_eq!(bullet.get_pos(), Point { x: 4, y: 28 });
    assert_eq!(bullet.get_direction(), Direction::UP);
    assert_eq!(bullet.last_bullet_tick, None);
    assert!(!bullet.is_destroyed());
}

#[test]
fn fire_is_ignored_while_a_bullet_is_live() {
    let mut game = Game::new_at(64, 32, 0, 3, 1, 1, 1_000_000);
    game.fire_bullet();
    game.move_ship(Direction::RIGHT);
    game.tick_at(0, 0);
    game.tick_at(30, 0);
    game.fire_bullet();
    let bullet = game.get_bullet().as_ref().unwrap();
    assert_eq!(bullet.get_pos(), Point { x: 4, y: 27 });
    assert_eq!(bullet.last_bullet_tick, Some(30));
}

#[test]
fn fire_is_free_again_after_the_bullet_left_the_area() {
    let mut game = Game::new_at(64, 32, 0, 3, 1, 1, 1_000_000);
    game.fire_bullet();
    // 25 advances take the bullet from row 28 to row 3. The next row is the
    // boundary, so the bullet leaves its slot.
    for n in 0..=25u64 {
        game.tick_at(30 * n, 0);
    }
    assert_eq!(game.get_bullet().as_ref().unwrap().get_pos(), Point { x: 4, y: 3 });
    game.tick_at(30 * 26, 0);
    assert!(game.get_bullet().is_none());
    game.move_ship(Direction::RIGHT);
    game.fire_bullet();
    assert_eq!(game.get_bullet().as_ref().unwrap().get_pos(), Point { x: 5, y: 28 });
}

#[test]
fn fire_is_free_again_after_the_bullet_struck() {
    let mut game = frozen_duel();
    for n in 0..=24u64 {
        game.tick_at(30 * n, 0);
    }
    assert!(game.get_bullet().as_ref().unwrap().is_destroyed());
    game.fire_bullet();
    let bullet = game.get_bullet().as_ref().unwrap();
    assert!(!bullet.is_destroyed());
    assert_eq!(bullet.get_pos(), Point { x: 6, y: 28 });
}

// A game whose formation of one stands still at (6, 3), with the ship's
// bullet under it at (6, 28). The engine's clocks start late, so ticks at
// earlier readings move the bullets and nothing else.
fn frozen_duel() -> Game {
    let mut game = Game::new_at(64, 32, 0, 3, 1, 1, 1_000_000);
    game.move_ship(Direction::RIGHT);
    game.move_ship(Direction::RIGHT);
    game.fire_bullet();
    game
}

#[test]
fn scenario_bullet_from_below_destroys_the_enemy_and_wins() {
    let mut game = frozen_duel();
    assert_eq!(positions(&game), vec![(6, 3)]);
    assert_eq!(game.get_bullet().as_ref().unwrap().get_pos(), Point { x: 6, y: 28 });
    // The first tick arms the bullet, each later one advances it a row.
    for n in 0..=23u64 {
        assert_eq!(game.tick_at(30 * n, 0), GameCondition::Running);
        let bullet = game.get_bullet().as_ref().unwrap();
        assert_eq!(bullet.get_pos(), Point { x: 6, y: 28 - n as usize });
        assert!(!bullet.is_destroyed());
        assert!(!game.get_enemies()[0].is_destroyed());
        assert_eq!(game.get_score(), 0);
    }
    // The bullet goes to row 4. The cell ahead of it holds the enemy.
    assert_eq!(game.tick_at(30 * 24, 0), GameCondition::Win);
    assert!(game.get_enemies()[0].is_destroyed());
    assert_eq!(game.get_score(), 10);
    let bullet = game.get_bullet().as_ref().unwrap();
    assert!(bullet.is_destroyed());
    assert_eq!(bullet.get_pos(), Point { x: 6, y: 4 });
    assert_eq!(game.has_game_ended(), GameCondition::Win);
    assert_eq!(game.get_lives(), 3);
    assert_eq!(game.take_sounds(), vec![Sound::Fire, Sound::OnHit]);
}

#[test]
fn scenario_enemy_walks_into_the_bullets_column() {
    let mut game = Game::new_at(64, 32, 0, 3, 1, 1, 0);
    game.move_ship(Direction::LEFT);
    game.fire_bullet();
    assert_eq!(game.get_bullet().as_ref().unwrap().get_pos(), Point { x: 3, y: 28 });
    // The enemy steps left at 210, 420 and 630 and then stands in column 3.
    // The bullet reaches row 4 at 720.
    for n in 0..=23u64 {
        assert_eq!(game.tick_at(30 * n, 0), GameCondition::Running);
    }
    assert_eq!(positions(&game), vec![(3, 3)]);
    assert_eq!(game.tick_at(720, 0), GameCondition::Win);
    assert!(game.get_enemies()[0].is_destroyed());
    assert_eq!(game.get_score(), 10);
}

#[test]
fn struck_enemy_scores_once() {
    let mut game = frozen_duel();
    for n in 0..=24u64 {
        game.tick_at(30 * n, 0);
    }
    assert_eq!(game.get_score(), 10);
    game.detect_enemy_collision();
    game.collision_detection();
    assert_eq!(game.get_score(), 10);
    // A second bullet passes through the cell of the destroyed enemy.
    game.fire_bullet();
    for n in 25..=52u64 {
        game.tick_at(30 * n, 0);
    }
    assert!(game.get_bullet().is_none());
    assert_eq!(game.get_score(), 10);
    assert_eq!(game.take_sounds(), vec![Sound::Fire, Sound::OnHit, Sound::Fire]);
}

#[test]
fn bullet_strikes_the_first_live_enemy_only() {
    let mut game = Game::new_at(64, 32, 0, 3, 2, 1, 1_000_000);
    assert_eq!(positions(&game), vec![(6, 3), (6, 4)]);
    game.move_ship(Direction::RIGHT);
    game.move_ship(Direction::RIGHT);
    game.fire_bullet();
    // The bullet reaches row 5 after 23 advances and strikes the enemy in
    // row 4.
    for n in 0..=23u64 {
        game.tick_at(30 * n, 0);
    }
    assert!(!game.get_enemies()[0].is_destroyed());
    assert!(game.get_enemies()[1].is_destroyed());
    assert_eq!(game.get_score(), 10);
    assert_eq!(game.has_game_ended(), GameCondition::Running);
    game.fire_bullet();
    for n in 24..=48u64 {
        game.tick_at(30 * n, 0);
    }
    assert!(game.get_enemies()[0].is_destroyed());
    assert_eq!(game.get_score(), 20);
    assert_eq!(game.has_game_ended(), GameCondition::Win);
}

#[test]
fn enemy_attack_waits_for_its_interval() {
    let mut game = Game::new_at(64, 32, 0, 3, 1, 2, 1000);
    game.enemy_attack_at(2499, 1);
    assert!(game.get_enemy_bullets().is_empty());
    game.enemy_attack_at(2500, 1);
    assert_eq!(game.get_enemy_bullets().len(), 1);
    let bullet = &game.get_enemy_bullets()[0];
    assert_eq!(bullet.get_pos(), Point { x: 8, y: 4 });
    assert_eq!(bullet.get_direction(), Direction::DOWN);
    assert_eq!(bullet.last_bullet_tick, None);
    game.enemy_attack_at(3999, 0);
    assert_eq!(game.get_enemy_bullets().len(), 1);
    game.enemy_attack_at(4000, 0);
    assert_eq!(game.get_enemy_bullets().len(), 2);
    assert_eq!(game.get_enemy_bullets()[1].get_pos(), Point { x: 6, y: 4 });
}

#[test]
fn enemy_attack_with_no_enemy_does_nothing() {
    let mut game = Game::new_at(64, 32, 0, 3, 0, 0, 0);
    game.enemy_attack_at(5000, 0);
    assert!(game.get_enemy_bullets().is_empty());
    game.enemy_attack();
    assert!(game.get_enemy_bullets().is_empty());
}

#[test]
fn enemy_attack_by_chance_shoots_from_under_an_enemy() {
    // The engine's clocks start at zero, so by the system clock the shot is
    // long due.
    let mut game = Game::new_at(64, 32, 0, 3, 2, 3, 0);
    game.enemy_attack();
    assert_eq!(game.get_enemy_bullets().len(), 1);
    let pos = game.get_enemy_bullets()[0].get_pos();
    assert!(positions(&game).contains(&(pos.x, pos.y - 1)));
    // The timer was set anew from the system clock: no second shot yet.
    game.enemy_attack();
    assert_eq!(game.get_enemy_bullets().len(), 1);
}

#[test]
fn enemy_bullets_leave_at_the_bottom_boundary() {
    let mut game = Game::new_at(64, 32, 0, 3, 1, 1, 1_000_000);
    // The ship gets out of the bullet's column.
    for _ in 0..10 {
        game.move_ship(Direction::RIGHT);
    }
    game.enemy_attack_at(2_000_000, 0);
    assert_eq!(game.get_enemy_bullets()[0].get_pos(), Point { x: 6, y: 4 });
    // 25 advances take the bullet from row 4 to row 29. The next row is the
    // boundary.
    for n in 0..=25u64 {
        game.move_enemy_bullets_at(30 * n);
    }
    assert_eq!(game.get_enemy_bullets()[0].get_pos(), Point { x: 6, y: 29 });
    game.move_enemy_bullets_at(30 * 26);
    assert!(game.get_enemy_bullets().is_empty());
    assert_eq!(game.get_lives(), 3);
    assert_eq!(game.take_sounds(), vec![Sound::Fire]);
}

#[test]
fn scenario_enemy_bullet_takes_the_last_life() {
    let mut game = Game::new_at(64, 32, 0, 1, 1, 1, 0);
    game.move_ship(Direction::RIGHT);
    game.move_ship(Direction::RIGHT);
    assert_eq!(game.get_ship().get_container().top, Point { x: 5, y: 29 });
    game.enemy_attack_at(1500, 0);
    assert_eq!(game.get_enemy_bullets().len(), 1);
    assert_eq!(game.get_enemy_bullets()[0].get_pos(), Point { x: 6, y: 4 });
    // The tick at 1500 arms the bullet; each of the next 24 takes it a row
    // down, to row 28, straight above the ship.
    for m in 0..=24u64 {
        assert_eq!(game.tick_at(1500 + 30 * m, 0), GameCondition::Running);
        assert_eq!(game.get_enemy_bullets()[0].get_pos(), Point { x: 6, y: 4 + m as usize });
        assert_eq!(game.get_lives(), 1);
    }
    assert_eq!(game.tick_at(1500 + 30 * 25, 0), GameCondition::Loss);
    assert_eq!(game.get_lives(), 0);
    assert!(game.get_enemy_bullets().is_empty());
    assert!(!game.get_ship().is_destroyed());
    assert_eq!(game.get_ship().get_container().top, Point { x: 3, y: 29 });
    assert_eq!(game.get_ship().get_container().bottom, Point { x: 6, y: 29 });
    assert_eq!(game.has_game_ended(), GameCondition::Loss);
}

#[test]
fn ship_span_counts_with_both_ends() {
    let mut game = Game::new_at(64, 32, 0, 3, 1, 3, 1_000_000);
    // Bullets in the columns 6, 8 and 10; the ship spans 7 to 10.
    for _ in 0..4 {
        game.move_ship(Direction::RIGHT);
    }
    game.enemy_attack_at(2_000_000, 0);
    game.enemy_attack_at(4_000_000, 1);
    game.enemy_attack_at(6_000_000, 2);
    for n in 0..=24u64 {
        game.move_enemy_bullets_at(30 * n);
    }
    assert_eq!(game.get_enemy_bullets().len(), 3);
    assert_eq!(game.get_enemy_bullets()[0].get_pos(), Point { x: 6, y: 28 });
    game.detect_ship_collision();
    // The bullets in the columns 8 and 10 hit and leave together, at the
    // cost of one life. The one in column 6 misses and stays.
    assert_eq!(game.get_lives(), 2);
    assert_eq!(game.get_enemy_bullets().len(), 1);
    assert_eq!(game.get_enemy_bullets()[0].get_pos(), Point { x: 6, y: 28 });
    assert_eq!(game.get_ship().get_container().top, Point { x: 3, y: 29 });
    // The fresh ship spans 3 to 6, so the bullet that stayed hits it now.
    game.detect_ship_collision();
    assert_eq!(game.get_lives(), 1);
    assert!(game.get_enemy_bullets().is_empty());
}

#[test]
fn lives_stop_at_zero() {
    let mut game = Game::new_at(64, 32, 0, 0, 1, 1, 1_000_000);
    game.move_ship(Direction::RIGHT);
    game.enemy_attack_at(2_000_000, 0);
    for n in 0..=24u64 {
        game.move_enemy_bullets_at(30 * n);
    }
    game.detect_ship_collision();
    assert!(game.get_enemy_bullets().is_empty());
    assert_eq!(game.get_lives(), 0);
}

#[test]
fn win_comes_before_loss() {
    let mut game = frozen_duel();
    game.set_lives(0);
    assert_eq!(game.has_game_ended(), GameCondition::Loss);
    for n in 0..=24u64 {
        game.tick_at(30 * n, 0);
    }
    assert_eq!(game.get_lives(), 0);
    assert_eq!(game.has_game_ended(), GameCondition::Win);
}

#[test]
fn empty_formation_is_a_win() {
    let mut game = Game::new_at(64, 32, 0, 0, 0, 5, 0);
    assert_eq!(game.has_game_ended(), GameCondition::Win);
    assert_eq!(game.tick_at(5000, 0), GameCondition::Win);
    assert_eq!(game.tick(), GameCondition::Win);
}

#[test]
fn no_life_left_is_a_loss() {
    let game = Game::new_at(64, 32, 0, 0, 1, 1, 0);
    assert_eq!(game.has_game_ended(), GameCondition::Loss);
}

#[test]
fn enemy_on_the_last_row_is_a_loss() {
    // The last row above the bottom boundary is row 29.
    let game = Game::new_at(64, 32, 0, 3, 26, 1, 0);
    assert_eq!(game.get_enemies()[25].get_pos(), Point { x: 6, y: 28 });
    assert_eq!(game.has_game_ended(), GameCondition::Running);
    let game = Game::new_at(64, 32, 0, 3, 27, 1, 0);
    assert_eq!(game.get_enemies()[26].get_pos(), Point { x: 6, y: 29 });
    assert_eq!(game.has_game_ended(), GameCondition::Loss);
}

#[test]
fn scenario_reset_starts_over() {
    let mut game = Game::new_at(64, 32, 5, 2, 2, 2, 1_000_000);
    game.move_ship(Direction::RIGHT);
    game.move_ship(Direction::RIGHT);
    game.fire_bullet();
    for n in 0..=23u64 {
        game.tick_at(30 * n, 1);
    }
    game.enemy_attack_at(2_500_000, 1);
    assert!(game.get_enemies()[2].is_destroyed());
    assert!(game.get_bullet().is_some());
    assert_eq!(game.get_enemy_bullets().len(), 1);
    assert_eq!(game.get_score(), 15);
    game.set_lives(1);
    game.reset_game();
    assert_eq!(game.get_lives(), 2);
    assert_eq!(game.get_max_lives(), 2);
    assert_eq!(game.get_score(), 0);
    assert!(game.get_bullet().is_none());
    assert!(game.get_enemy_bullets().is_empty());
    assert_eq!(game.get_enemies_rows_cols(), (2, 2));
    assert_eq!(positions(&game), vec![(6, 3), (8, 3), (6, 4), (8, 4)]);
    assert!(game.get_enemies().iter().all(|e| !e.is_destroyed()));
    assert_eq!(game.get_ship().get_container().top, Point { x: 3, y: 29 });
    assert_eq!(game.has_game_ended(), GameCondition::Running);
}

#[test]
fn lives_never_rise_and_score_never_falls_over_a_game() {
    let mut game = Game::new_at(64, 32, 0, 3, 3, 8, 0);
    let mut lives = game.get_lives();
    let mut score = game.get_score();
    let mut now = 0;
    for step in 0..3000usize {
        now += 10;
        if step % 7 == 0 {
            game.fire_bullet();
        }
        if step % 3 == 0 {
            game.move_ship(if (step / 200) % 2 == 0 { Direction::RIGHT } else { Direction::LEFT });
        }
        if !game.can_tick() {
            break;
        }
        game.tick_at(now, step % 24);
        assert!(game.get_lives() <= lives);
        assert!(game.get_score() >= score);
        lives = game.get_lives();
        score = game.get_score();
    }
    assert!(score > 0);
}

#[test]
fn tick_by_the_system_clock_keeps_the_game_consistent() {
    let mut game = Game::new(64, 32, 0, 3, 2, 3);
    game.fire_bullet();
    for _ in 0..50 {
        assert!(game.can_tick());
        game.tick();
        assert_eq!(game.get_enemies().len(), 6);
        assert!(game.get_lives() <= 3);
    }
    assert_eq!(game.get_bullet().as_ref().unwrap().get_pos().x, 4);
    assert!(game.get_bullet().as_ref().unwrap().last_bullet_tick.is_some());
}

#[test]
fn move_enemy_by_the_system_clock_steps_a_formation_that_is_due() {
    let mut game = Game::new_at(64, 32, 0, 3, 1, 1, 0);
    game.move_enemy();
    assert_eq!(positions(&game), vec![(5, 3)]);
    game.move_enemy();
    assert_eq!(positions(&game), vec![(5, 3)]);
}

#[test]
fn take_sounds_hands_each_sound_out_once() {
    let mut game = frozen_duel();
    assert!(game.take_sounds().is_empty());
    game.tick_at(0, 0);
    assert_eq!(game.take_sounds(), vec![Sound::Fire]);
    assert!(game.take_sounds().is_empty());
    game.tick_at(30, 0);
    assert!(game.take_sounds().is_empty());
}

#[test]
fn can_tick_sees_an_enemy_without_room_below() {
    let mut game = Game::new_at(64, usize::MAX, 0, 3, 1, 1, 0);
    assert!(game.can_tick());
    game.init_enemy(0, usize::MAX - 6);
    assert_eq!(game.get_enemies()[0].get_pos(), Point { x: 6, y: usize::MAX - 3 });
    assert!(game.can_tick());
    // The formation turns at the left edge and, 38 steps later, at the right
    // one. Each turn takes it a row down.
    let mut now = 0;
    for _ in 0..4 {
        now += 200;
        game.move_enemy_at(now);
    }
    assert_eq!(game.get_enemies()[0].get_pos(), Point { x: 4, y: usize::MAX - 2 });
    assert!(game.can_tick());
    for _ in 0..38 {
        now += 200;
        game.move_enemy_at(now);
    }
    assert_eq!(game.get_enemies()[0].get_pos(), Point { x: 40, y: usize::MAX - 1 });
    assert!(!game.can_tick());
}

#[test]
fn window_fits_from_six_by_four_on() {
    assert!(fits_window(6, 4));
    assert!(fits_window(64, 32));
    assert!(fits_window(usize::MAX, usize::MAX));
    assert!(!fits_window(5, 4));
    assert!(!fits_window(6, 3));
    assert!(!fits_window(0, 0));
}

#[test]
fn formation_fits_while_the_grid_has_room() {
    let (_, area) = Game::build_containers(64, 32);
    assert!(fits_formation(&area, 0, 0, 5, 11));
    assert!(fits_formation(&area, 0, 0, 0, 0));
    // Columns: (offset + 3 + cols) * 2 has to be a number of the machine.
    assert!(fits_formation(&area, 0, 0, 1, usize::MAX / 2 - 3));
    assert!(!fits_formation(&area, 0, 0, 1, usize::MAX / 2 - 2));
    assert!(!fits_formation(&area, usize::MAX, 0, 1, 1));
    // Rows: offset + 3 + rows + 2 has to be one, and so has rows * cols.
    assert!(fits_formation(&area, 0, 0, usize::MAX - 5, 1));
    assert!(!fits_formation(&area, 0, 0, usize::MAX - 4, 1));
    assert!(fits_formation(&area, 0, usize::MAX - 6, 1, 1));
    assert!(!fits_formation(&area, 0, usize::MAX - 5, 1, 1));
    assert!(!fits_formation(&area, 0, 0, usize::MAX / 2, 3));
}

#[test]
fn rows_and_cols_that_clamp_always_fit_a_small_area() {
    let game = Game::new_at(64, 32, 0, 3, 1, 1, 0);
    assert!(game.can_set_enemy_rows_cols(5, 2));
    assert!(game.can_set_enemy_rows_cols(usize::MAX, usize::MAX));
}

#[test]
fn next_round_after_a_win_is_harder() {
    let mut game = frozen_duel();
    for n in 0..=24u64 {
        game.tick_at(30 * n, 0);
    }
    assert_eq!(game.has_game_ended(), GameCondition::Win);
    assert!(game.can_grow());
    game.next_round(GameCondition::Win);
    assert_eq!(game.get_score(), 10);
    assert_eq!(game.get_lives(), 4);
    assert_eq!(game.get_max_lives(), 3);
    assert_eq!(game.get_enemies_rows_cols(), (2, 2));
    assert_eq!(positions(&game), vec![(6, 3), (8, 3), (6, 4), (8, 4)]);
    assert!(game.get_enemies().iter().all(|e| !e.is_destroyed()));
    assert!(game.get_bullet().is_none());
    assert_eq!(game.get_ship().get_pos(), Point { x: 3, y: 29 });
}

#[test]
fn next_round_after_a_loss_starts_over() {
    for last in [GameCondition::Loss, GameCondition::Ended, GameCondition::Running] {
        let mut game = frozen_duel();
        for n in 0..=24u64 {
            game.tick_at(30 * n, 0);
        }
        game.set_lives(1);
        game.next_round(last);
        assert_eq!(game.get_score(), 0);
        assert_eq!(game.get_lives(), 3);
        assert_eq!(game.get_enemies_rows_cols(), (1, 1));
        assert_eq!(positions(&game), vec![(6, 3)]);
        assert!(!game.get_enemies()[0].is_destroyed());
    }
}

#[test]
fn next_round_stops_growing_at_the_playable_area() {
    let mut game = Game::new_at(20, 8, 0, 3, 3, 9, 0);
    // The playable area is 10 columns wide and 4 rows high.
    assert_eq!(game.get_playablearea().get_width(), 10);
    assert_eq!(game.get_playablearea().get_height(), 4);
    game.next_round(GameCondition::Win);
    assert_eq!(game.get_enemies_rows_cols(), (3, 9));
    assert_eq!(game.get_lives(), 4);
}

#[test]
fn a_game_with_all_lives_of_the_machine_cannot_grow() {
    let mut game = Game::new_at(64, 32, 0, 3, 1, 1, 0);
    game.set_lives(usize::MAX);
    assert!(!game.can_grow());
    game.set_lives(usize::MAX - 1);
    assert!(game.can_grow());
}

#[test]
fn destroyed_enemy_on_the_last_row_does_not_lose_the_game() {
    // 25 rows: the lowest enemy stands at (6, 27), straight above the bullet.
    let mut game = Game::new_at(64, 32, 0, 3, 25, 1, 0);
    game.move_ship(Direction::RIGHT);
    game.move_ship(Direction::RIGHT);
    game.fire_bullet();
    game.detect_enemy_collision();
    assert!(game.get_enemies()[24].is_destroyed());
    assert_eq!(game.get_enemies()[24].get_pos(), Point { x: 6, y: 27 });
    assert_eq!(game.get_score(), 10);
    // In a window of 30 rows the last row above the bottom boundary is 27.
    game.set_window(64, 30);
    assert_eq!(game.get_playablearea().bottom.y, 28);
    assert_eq!(game.has_game_ended(), GameCondition::Running);
    // A live enemy on that row loses the game.
    game.set_window(64, 29);
    assert_eq!(game.get_enemies()[23].get_pos(), Point { x: 6, y: 26 });
    assert!(!game.get_enemies()[23].is_destroyed());
    assert_eq!(game.has_game_ended(), GameCondition::Loss);
}

#[test]
fn destroyed_enemies_alone_on_the_last_rows_leave_the_game_running() {
    let mut game = Game::new_at(64, 32, 0, 3, 27, 1, 0);
    assert_eq!(game.has_game_ended(), GameCondition::Loss);
    game.move_ship(Direction::RIGHT);
    game.move_ship(Direction::RIGHT);
    game.fire_bullet();
    // The bullet starts at (6, 28); the enemy at (6, 29) is not ahead of it,
    // the one at (6, 27) is.
    game.detect_enemy_collision();
    assert!(game.get_enemies()[24].is_destroyed());
    assert!(!game.get_enemies()[26].is_destroyed());
    assert_eq!(game.has_game_ended(), GameCondition::Loss);
}

#[test]
fn reduce_life_takes_one_life_and_stops_at_none() {
    let mut game = Game::new_at(64, 32, 7, 2, 1, 1, 0);
    game.reduce_life();
    assert_eq!(game.get_lives(), 1);
    game.reduce_life();
    assert_eq!(game.get_lives(), 0);
    game.reduce_life();
    assert_eq!(game.get_lives(), 0);
    assert_eq!(game.get_max_lives(), 2);
    assert_eq!(game.get_score(), 7);
    assert_eq!(positions(&game), vec![(6, 3)]);
}

#[test]
fn can_tick_sees_a_score_without_room() {
    let mut game = Game::new_at(64, 32, 0, 3, 1, 1, 0);
    game.set_score(u64::MAX - 10);
    assert!(game.can_tick());
    game.set_score(u64::MAX - 9);
    assert!(!game.can_tick());
}

#[test]
fn a_strike_at_the_top_of_the_score_adds_the_points_exactly() {
    let mut game = frozen_duel();
    game.set_score(u64::MAX - 10);
    for n in 0..=24u64 {
        assert!(game.can_tick());
        game.tick_at(30 * n, 0);
    }
    assert_eq!(game.get_score(), u64::MAX);
    assert!(!game.can_tick());
}
