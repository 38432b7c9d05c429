//! What a key does to the game.

use vstd::prelude::*;
use crate::container::Direction;
use crate::game::Game;
use crate::model::GameView;

verus! {

/// A key as the engine tells them apart.
#[derive(Debug, Clone, Copy, PartialEq, Eq, Structural)]
pub enum Key {
    /// The space bar.
    Space,
    Left,
    Right,
    Escape,
    Enter,
    /// Any other key.
    Other,
}

/// The state after `key` was pressed: the space bar shoots, the left and
/// right arrows steer, and no other key does anything.
pub open spec fn pressed(g: GameView, key: Key) -> GameView {
    match key {
        Key::Space => g.fire_bullet(),
        Key::Left => g.move_ship(Direction::LEFT),
        Key::Right => g.move_ship(Direction::RIGHT),
        _ => g,
    }
}

/// Turns keys into the game's entry points, and holds how long a poll for
/// a key waits.
pub struct KeyboardHandler {
    wait: u64,
    step: isize,
}

impl KeyboardHandler {
    /// The milliseconds a poll for a key waits.
    pub closed spec fn wait(&self) -> u64 {
        self.wait
    }

    /// The handler's step setting.
    pub closed spec fn step(&self) -> isize {
        self.step
    }

    pub fn new() -> (handler: KeyboardHandler)
        ensures
            handler.wait() == 1,
            handler.step() == 1,
    {
        KeyboardHandler { wait: 1, step: 1 }
    }

    pub fn set_wait(&mut self, wait: u64)
        ensures
            final(self).wait() == wait,
            final(self).step() == old(self).step(),
    {
        self.wait = wait
    }

    pub fn get_wait(&self) -> (wait: u64)
        ensures
            wait == self.wait(),
    {
        self.wait
    }

    pub fn set_step(&mut self, step: isize)
        ensures
            final(self).step() == step,
            final(self).wait() == old(self).wait(),
    {
        self.step = step
    }

    pub fn get_step(&self) -> (step: isize)
        ensures
            step == self.step(),
    {
        self.step
    }

    /// Applies `key` to the game and hands the key back.
    pub fn handle(&mut self, game: &mut Game, key: Key) -> (seen: Key)
        requires
            old(game)@.wf(),
        ensures
            final(game)@ == pressed(old(game)@, key),
            final(game)@.wf(),
            seen == key,
            final(self).wait() == old(self).wait(),
            final(self).step() == old(self).step(),
    {
        match key {
            Key::Space => {
                game.fire_bullet();
            },
            Key::Left => {
                game.move_ship(Direction::LEFT);
            },
            Key::Right => {
                game.move_ship(Direction::RIGHT);
            },
            _ => {},
        }
        key
    }
}

} // verus!
