use invader::container::Point;
use invader::game::Game;
use invader::keyboard::{Key, KeyboardHandler};

#[test]
fn handler_starts_with_its_defaults() {
    let mut handler = KeyboardHandler::new();
    assert_eq!(handler.get_wait(), 1);
    assert_eq!(handler.get_step(), 1);
    handler.set_wait(25);
    handler.set_step(-2);
    assert_eq!(handler.get_wait(), 25);
    assert_eq!(handler.get_step(), -2);
}

#[test]
fn space_fires() {
    let mut handler = KeyboardHandler::new();
    let mut game = Game::new_at(64, 32, 0, 3, 1, 1, 0);
    assert_eq!(handler.handle(&mut game, Key::Space), Key::Space);
    assert_eq!(game.get_bullet().as_ref().unwrap().get_pos(), Point { x: 4, y: 28 });
}

#[test]
fn arrows_steer() {
    let mut handler = KeyboardHandler::new();
    let mut game = Game::new_at(64, 32, 0, 3, 1, 1, 0);
    handler.handle(&mut game, Key::Right);
    handler.handle(&mut game, Key::Right);
    assert_eq!(game.get_ship().get_pos(), Point { x: 5, y: 29 });
    handler.handle(&mut game, Key::Left);
    assert_eq!(game.get_ship().get_pos(), Point { x: 4, y: 29 });
}

#[test]
fn other_keys_do_nothing() {
    let mut handler = KeyboardHandler::new();
    let mut game = Game::new_at(64, 32, 0, 3, 1, 1, 0);
    assert_eq!(handler.handle(&mut game, Key::Escape), Key::Escape);
    assert_eq!(handler.handle(&mut game, Key::Enter), Key::Enter);
    assert_eq!(handler.handle(&mut game, Key::Other), Key::Other);
    assert!(game.get_bullet().is_none());
    assert_eq!(game.get_ship().get_pos(), Point { x: 3, y: 29 });
}
