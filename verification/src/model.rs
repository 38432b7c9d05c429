//! The engine as a mathematical state machine.
//!
//! [`GameView`] is the engine's state; each step of a tick is a function
//! from one such state to the next. The executable engine is proved to
//! follow these functions step by step.

use vstd::prelude::*;
use crate::audio::Sound;
use crate::clock::interval_over;
use crate::container::{Container, Direction, Point};
use crate::enemy::{AlienView, ALIEN_POINTS};
use crate::ship::ShipView;
use crate::weapon::BulletView;

verus! {

/// Cells between the window's border and the playable area, on each side.
pub const WINDOW_PADDING: usize = 2;

/// Columns a ship spans beyond its leading edge.
pub const SHIP_LENGTH: usize = 3;

/// Columns a ship covers per step.
pub const SHIP_SPEED: usize = 1;

/// Columns the formation covers per step.
pub const ENEMY_SPEED: usize = 1;

/// Columns from one enemy of a row to the next.
pub const ENEMY_GAP: usize = 2;

/// Milliseconds between two steps of the formation.
pub const ENEMY_MOVE_INTERVAL: u64 = 200;

/// Milliseconds between two shots of the formation.
pub const ENEMY_ATTACK_INTERVAL: u64 = 1500;

/// How a game stands.
#[derive(Debug, Clone, Copy, PartialEq, Eq, Structural)]
pub enum GameCondition {
    Running,
    Win,
    Loss,
    Ended,
}

/// The right edge of the playable area before padding: seven tenths of the
/// window's width, rounded down.
pub open spec fn playable_width(width: int) -> int {
    width * 7 / 10
}

/// A window of this size leaves a playable area whose corners are in order.
pub open spec fn window_fits(width: usize, height: usize) -> bool {
    playable_width(width as int) >= 2 * WINDOW_PADDING && height >= 2 * WINDOW_PADDING
}

/// The window of the given size.
pub open spec fn window_of(width: usize, height: usize) -> Container {
    Container {
        top: Point { x: 0, y: 0 },
        bottom: Point { x: width, y: height },
        padding_vertical: WINDOW_PADDING,
        padding_horizontal: WINDOW_PADDING,
    }
}

/// The playable area inside the window of the given size.
pub open spec fn playable_area_of(width: usize, height: usize) -> Container {
    Container {
        top: Point { x: WINDOW_PADDING, y: WINDOW_PADDING },
        bottom: Point {
            x: (playable_width(width as int) - WINDOW_PADDING) as usize,
            y: (height - WINDOW_PADDING) as usize,
        },
        padding_vertical: 0,
        padding_horizontal: 0,
    }
}

/// The index of a formation's first column, for a formation shifted by
/// `start_x`: it lies past the playable area's top padding and one more. An
/// enemy's column is its index times the gap.
pub open spec fn first_col(area: Container, start_x: int) -> int {
    start_x + area.top.y + 1
}

/// The first row of a formation shifted by `start_y`: it lies past the
/// playable area's left padding and one more.
pub open spec fn first_row(area: Container, start_y: int) -> int {
    start_y + area.top.x + 1
}

/// A formation of this size and offset lies on the grid, with a column to
/// spare on its right and two rows to spare below.
pub open spec fn formation_fits(
    area: Container,
    start_x: int,
    start_y: int,
    rows: int,
    cols: int,
) -> bool {
    &&& (first_col(area, start_x) + cols) * ENEMY_GAP <= usize::MAX
    &&& first_row(area, start_y) + rows + 2 <= usize::MAX
    &&& rows * cols <= usize::MAX
}

/// The enemy that stands at place `k` of a formation, counted row by row.
pub open spec fn formation_member(area: Container, start_x: int, start_y: int, cols: int, k: int)
    -> AlienView {
    AlienView::fresh(
        ((first_col(area, start_x) + k % cols) * ENEMY_GAP) as usize,
        (first_row(area, start_y) + k / cols) as usize,
    )
}

/// A fresh formation of `rows` by `cols` enemies, row by row.
pub open spec fn formation(area: Container, start_x: int, start_y: int, rows: int, cols: int)
    -> Seq<AlienView> {
    Seq::new(
        (rows * cols) as nat,
        |k: int| formation_member(area, start_x, start_y, cols, k),
    )
}

/// A row or column count held to what an extent of the playable area takes:
/// one less than the extent, and never less than none.
pub open spec fn clamped(n: usize, extent: int) -> usize {
    if extent < 1 {
        0
    } else if n >= extent - 1 {
        (extent - 1) as usize
    } else {
        n
    }
}

/// The ship as it enters the playable area.
pub open spec fn spawn_ship(area: Container) -> ShipView {
    ShipView::fresh(
        (area.top.x + 1) as usize,
        (area.bottom.y - 1) as usize,
        SHIP_LENGTH,
        SHIP_SPEED,
    )
}

/// The opposite horizontal direction. A vertical one stays.
pub open spec fn flipped(d: Direction) -> Direction {
    match d {
        Direction::LEFT => Direction::RIGHT,
        Direction::RIGHT => Direction::LEFT,
        _ => d,
    }
}

/// The enemy stands in one of the two outermost columns of the playable
/// area, or beyond them.
pub open spec fn at_edge(e: AlienView, area: Container) -> bool {
    e.obj.pos().x <= area.top.x + 1 || e.obj.pos().x >= area.bottom.x - 1
}

/// Some enemy of the formation stands at an edge.
pub open spec fn on_edge(enemies: Seq<AlienView>, area: Container) -> bool {
    exists|i: int| 0 <= i < enemies.len() && at_edge(#[trigger] enemies[i], area)
}

/// Where one step of the formation takes an enemy: `speed` columns in the
/// direction `d`, and one row down when the formation turns.
pub open spec fn stepped(e: AlienView, d: Direction, speed: int, turns: bool) -> AlienView {
    e.at(
        Point {
            x: (if d == Direction::RIGHT {
                e.obj.pos().x + speed
            } else {
                e.obj.pos().x - speed
            }) as usize,
            y: (if turns {
                e.obj.pos().y + 1
            } else {
                e.obj.pos().y as int
            }) as usize,
        },
    )
}

/// The bullet's next row lies on the playable area's top or bottom boundary
/// or beyond it.
pub open spec fn crosses(b: BulletView, area: Container) -> bool {
    b.next_y() <= area.top.y || b.next_y() >= area.bottom.y
}

/// The bullet heads down, and its next cell lies on the ship's row within
/// the ship's span, both ends included.
pub open spec fn hits_ship(b: BulletView, ship: ShipView) -> bool {
    &&& !b.obj.destroyed
    &&& b.direction == Direction::DOWN
    &&& b.next_y() == ship.obj.container.top.y
    &&& ship.obj.container.top.x <= b.obj.pos().x <= ship.obj.container.bottom.x
}

/// Holds of the bullets that do not hit the ship.
pub open spec fn misses(ship: ShipView) -> spec_fn(BulletView) -> bool {
    |b: BulletView| !hits_ship(b, ship)
}

/// Holds of the bullets whose next row lies inside the playable area.
pub open spec fn stays(area: Container) -> spec_fn(BulletView) -> bool {
    |b: BulletView| !crosses(b, area)
}

/// Holds of the bullets whose tick sets off a sound.
pub open spec fn sounds_off() -> spec_fn(BulletView) -> bool {
    |b: BulletView| b.tick_cue() is Some
}

/// `i` is the first place of the formation with a live enemy on `(x, y)`.
pub open spec fn is_first_alive_at(enemies: Seq<AlienView>, x: int, y: int, i: int) -> bool {
    &&& 0 <= i < enemies.len()
    &&& enemies[i].alive_at(x, y)
    &&& forall|j: int| 0 <= j < i ==> !(#[trigger] enemies[j]).alive_at(x, y)
}

/// The first place of the formation with a live enemy on `(x, y)`.
pub open spec fn first_alive_at(enemies: Seq<AlienView>, x: int, y: int) -> Option<int> {
    if exists|i: int| is_first_alive_at(enemies, x, y, i) {
        Some(choose|i: int| is_first_alive_at(enemies, x, y, i))
    } else {
        None
    }
}

/// The sounds that are due after one more cue, if it is one.
pub open spec fn with_cue(sounds: Seq<Sound>, cue: Option<Sound>) -> Seq<Sound> {
    match cue {
        Some(sound) => sounds.push(sound),
        None => sounds,
    }
}

/// The shots' sounds that a tick of these bullets sets off, one per armed
/// bullet, in order.
pub open spec fn tick_cues(bullets: Seq<BulletView>) -> Seq<Sound> {
    bullets.filter(sounds_off()).map_values(|b: BulletView| Sound::Fire)
}

/// The engine's state.
pub struct GameView {
    pub score: u64,
    pub lives: usize,
    pub max_lives: usize,
    pub enemies: Seq<AlienView>,
    pub window: Container,
    pub playable_area: Container,
    pub enemy_rows: usize,
    pub enemy_cols: usize,
    pub enemy_direction: Direction,
    pub enemy_speed: usize,
    pub enemy_last_move: u64,
    pub enemy_move_duration: u64,
    pub enemy_gap: usize,
    pub enemy_bullets: Seq<BulletView>,
    pub enemy_attack_wait_duration: u64,
    pub last_enemy_attack_tick: u64,
    pub last_bullet: Option<BulletView>,
    pub ship: ShipView,
    /// Sounds that are due and not yet taken, oldest first.
    pub sounds: Seq<Sound>,
}

impl GameView {
    /// What every state of the engine satisfies.
    pub open spec fn wf(self) -> bool {
        &&& window_fits(self.window.bottom.x, self.window.bottom.y)
        &&& self.window == window_of(self.window.bottom.x, self.window.bottom.y)
        &&& self.playable_area == playable_area_of(self.window.bottom.x, self.window.bottom.y)
        &&& self.enemy_speed == ENEMY_SPEED
        &&& self.enemy_gap == ENEMY_GAP
        &&& (self.enemy_direction == Direction::LEFT || self.enemy_direction == Direction::RIGHT)
        &&& self.enemies.len() == self.enemy_rows * self.enemy_cols
        &&& formation_fits(
            self.playable_area,
            0,
            0,
            self.enemy_rows as int,
            self.enemy_cols as int,
        )
        &&& forall|i: int|
            0 <= i < self.enemies.len() ==> {
                &&& (#[trigger] self.enemies[i]).obj.container.top
                    == self.enemies[i].obj.container.bottom
                &&& self.enemies[i].points == ALIEN_POINTS
                &&& self.enemy_direction == Direction::LEFT ==> self.enemies[i].obj.pos().x
                    < usize::MAX
                &&& self.enemy_direction == Direction::RIGHT ==> self.enemies[i].obj.pos().x >= 1
            }
        &&& forall|i: int|
            0 <= i < self.enemy_bullets.len() ==> {
                &&& !(#[trigger] self.enemy_bullets[i]).obj.destroyed
                &&& self.enemy_bullets[i].direction == Direction::DOWN
            }
        &&& self.last_bullet matches Some(b) ==> b.direction == Direction::UP
        &&& self.ship.wf()
        &&& self.ship.speed == SHIP_SPEED
        &&& !self.ship.obj.destroyed
        &&& self.ship.obj.pos().y >= 1
    }

    /// Every enemy has `rows` rows of the grid below it.
    pub open spec fn room_below(self, rows: int) -> bool {
        forall|i: int|
            0 <= i < self.enemies.len() ==> (#[trigger] self.enemies[i]).obj.pos().y + rows
                <= usize::MAX
    }

    /// The score can take the points of one more enemy.
    pub open spec fn score_room(self) -> bool {
        self.score + ALIEN_POINTS <= u64::MAX
    }

    /// What a tick needs of the machine's numbers: every enemy has two rows
    /// of the grid below it, one to step down to and one to shoot from, and
    /// the score can take the points of one more enemy.
    pub open spec fn has_headroom(self) -> bool {
        self.room_below(2) && self.score_room()
    }

    /// `pick` is a place of the formation, or the formation has none.
    pub open spec fn can_pick(self, pick: int) -> bool {
        self.enemies.len() > 0 ==> 0 <= pick < self.enemies.len()
    }

    /// The state a new engine starts in.
    pub open spec fn initial(
        width: usize,
        height: usize,
        score: u64,
        lives: usize,
        enemy_rows: usize,
        enemy_cols: usize,
        now: u64,
    ) -> GameView {
        let area = playable_area_of(width, height);
        GameView {
            score,
            lives,
            max_lives: lives,
            enemies: formation(area, 0, 0, enemy_rows as int, enemy_cols as int),
            window: window_of(width, height),
            playable_area: area,
            enemy_rows,
            enemy_cols,
            enemy_direction: Direction::LEFT,
            enemy_speed: ENEMY_SPEED,
            enemy_last_move: now,
            enemy_move_duration: ENEMY_MOVE_INTERVAL,
            enemy_gap: ENEMY_GAP,
            enemy_bullets: Seq::empty(),
            enemy_attack_wait_duration: ENEMY_ATTACK_INTERVAL,
            last_enemy_attack_tick: now,
            last_bullet: None,
            ship: spawn_ship(area),
            sounds: Seq::empty(),
        }
    }

    /// The state with a fresh formation of the configured size, shifted by
    /// the given offsets. What the old formation was is forgotten.
    pub open spec fn init_enemy(self, start_x: usize, start_y: usize) -> GameView {
        GameView {
            enemies: formation(
                self.playable_area,
                start_x as int,
                start_y as int,
                self.enemy_rows as int,
                self.enemy_cols as int,
            ),
            ..self
        }
    }

    /// The state with a fresh ship where ships enter.
    pub open spec fn init_ship(self) -> GameView {
        GameView { ship: spawn_ship(self.playable_area), ..self }
    }

    /// The state with both a fresh formation and a fresh ship.
    pub open spec fn init(self) -> GameView {
        self.init_enemy(0, 0).init_ship()
    }

    /// The state with the window resized. Entities stay where they are.
    pub open spec fn set_window(self, width: usize, height: usize) -> GameView {
        GameView {
            window: window_of(width, height),
            playable_area: playable_area_of(width, height),
            ..self
        }
    }

    /// The state with the formation's size set, clamped to the playable
    /// area, and the formation built anew.
    pub open spec fn set_enemy_rows_cols(self, rows: usize, cols: usize) -> GameView {
        GameView {
            enemy_rows: clamped(rows, self.playable_area.height()),
            enemy_cols: clamped(cols, self.playable_area.width()),
            ..self
        }.init_enemy(0, 0)
    }

    /// The formation's step is due at `now`.
    pub open spec fn enemy_move_due(self, now: u64) -> bool {
        interval_over(now, self.enemy_last_move, self.enemy_move_duration)
    }

    /// The formation turns on its next step: some enemy stands at an edge.
    pub open spec fn turns(self) -> bool {
        on_edge(self.enemies, self.playable_area)
    }

    /// The formation's step. Nothing happens before its interval is over.
    /// Then, if some enemy stands at an edge, the direction flips and every
    /// enemy goes one row down; and every enemy goes one step in the
    /// direction that holds after the flip.
    pub open spec fn move_enemy(self, now: u64) -> GameView {
        if !self.enemy_move_due(now) {
            self
        } else {
            let turns = self.turns();
            let d = if turns {
                flipped(self.enemy_direction)
            } else {
                self.enemy_direction
            };
            GameView {
                enemy_last_move: now,
                enemy_direction: d,
                enemies: self.enemies.map_values(
                    |e: AlienView| stepped(e, d, self.enemy_speed as int, turns),
                ),
                ..self
            }
        }
    }

    /// The player's bullet is in its slot and not destroyed.
    pub open spec fn bullet_live(self) -> bool {
        self.last_bullet matches Some(b) && !b.obj.destroyed
    }

    /// The step of the player's bullet. A live bullet that would cross the
    /// playable area's boundary leaves its slot; any other live bullet
    /// takes its tick.
    pub open spec fn move_bullet(self, now: u64) -> GameView {
        if !self.bullet_live() {
            self
        } else {
            let b = self.last_bullet.unwrap();
            if crosses(b, self.playable_area) {
                GameView { last_bullet: None, ..self }
            } else {
                GameView {
                    last_bullet: Some(b.ticked(now)),
                    sounds: with_cue(self.sounds, b.tick_cue()),
                    ..self
                }
            }
        }
    }

    /// The place of the enemy that the player's bullet hits: the first live
    /// enemy on the cell the bullet is about to enter.
    pub open spec fn struck(self) -> Option<int> {
        if !self.bullet_live() {
            None
        } else {
            let b = self.last_bullet.unwrap();
            first_alive_at(self.enemies, b.obj.pos().x as int, b.next_y())
        }
    }

    /// The collision of the player's bullet with the formation. The enemy
    /// that is struck and the bullet are both destroyed, and the enemy's
    /// points go to the score, which has to have room for them.
    pub open spec fn detect_enemy_collision(self) -> GameView {
        match self.struck() {
            None => self,
            Some(i) => GameView {
                enemies: self.enemies.update(i, self.enemies[i].wrecked()),
                last_bullet: Some(self.last_bullet.unwrap().wrecked()),
                score: (self.score + self.enemies[i].points) as u64,
                sounds: self.sounds.push(Sound::OnHit),
                ..self
            },
        }
    }

    /// Some enemy bullet hits the ship.
    pub open spec fn ship_hit(self) -> bool {
        exists|i: int|
            0 <= i < self.enemy_bullets.len() && hits_ship(
                #[trigger] self.enemy_bullets[i],
                self.ship,
            )
    }

    /// The number of lives after one is lost.
    pub open spec fn lives_less_one(self) -> usize {
        if self.lives > 0 {
            (self.lives - 1) as usize
        } else {
            0
        }
    }

    /// The collision of the enemy bullets with the ship. Every bullet that
    /// hits leaves the game. If any did, one life is lost and a fresh ship
    /// enters.
    pub open spec fn detect_ship_collision(self) -> GameView {
        let rest = self.enemy_bullets.filter(misses(self.ship));
        if self.ship_hit() {
            GameView {
                enemy_bullets: rest,
                lives: self.lives_less_one(),
                ship: spawn_ship(self.playable_area),
                ..self
            }
        } else {
            GameView { enemy_bullets: rest, ..self }
        }
    }

    /// Both collisions, the formation's first.
    pub open spec fn collision_detection(self) -> GameView {
        self.detect_enemy_collision().detect_ship_collision()
    }

    /// The formation's shot is due at `now`.
    pub open spec fn enemy_attack_due(self, now: u64) -> bool {
        self.enemies.len() > 0 && interval_over(
            now,
            self.last_enemy_attack_tick,
            self.enemy_attack_wait_duration,
        )
    }

    /// The bullet that the enemy at place `pick` shoots: it starts at the
    /// middle column of the enemy, one row below it, and heads down.
    pub open spec fn shot_of(self, pick: int) -> BulletView {
        let c = self.enemies[pick].obj.container;
        BulletView::fresh(
            (c.top.x + c.width() / 2) as usize,
            (c.bottom.y + 1) as usize,
            Direction::DOWN,
        )
    }

    /// The formation's shot. Nothing happens before its interval is over or
    /// with no enemy in the formation. Else the enemy at place `pick`
    /// shoots, destroyed or not.
    pub open spec fn enemy_attack(self, now: u64, pick: int) -> GameView {
        if !self.enemy_attack_due(now) {
            self
        } else {
            GameView {
                enemy_bullets: self.enemy_bullets.push(self.shot_of(pick)),
                last_enemy_attack_tick: now,
                ..self
            }
        }
    }

    /// The enemy bullets that stay inside the playable area on their next
    /// advance.
    pub open spec fn staying_bullets(self) -> Seq<BulletView> {
        self.enemy_bullets.filter(stays(self.playable_area))
    }

    /// The step of the enemy bullets. One that would cross the playable
    /// area's boundary leaves the game; every other takes its tick.
    pub open spec fn move_enemy_bullets(self, now: u64) -> GameView {
        let staying = self.staying_bullets();
        GameView {
            enemy_bullets: staying.map_values(|b: BulletView| b.ticked(now)),
            sounds: self.sounds + tick_cues(staying),
            ..self
        }
    }

    /// Every enemy of the formation is destroyed. So it is where there is
    /// none.
    pub open spec fn cleared(self) -> bool {
        forall|i: int| 0 <= i < self.enemies.len() ==> (#[trigger] self.enemies[i]).obj.destroyed
    }

    /// Some enemy that is not destroyed has come down to the row above the
    /// playable area's bottom boundary.
    pub open spec fn landed(self) -> bool {
        exists|i: int|
            0 <= i < self.enemies.len() && !(#[trigger] self.enemies[i]).obj.destroyed
                && self.enemies[i].obj.pos().y >= self.playable_area.bottom.y - 1
    }

    /// How the game stands: won when the formation is cleared; else lost
    /// when no life is left or a live enemy has landed; else running.
    pub open spec fn has_game_ended(self) -> GameCondition {
        if self.cleared() {
            GameCondition::Win
        } else if self.lives == 0 {
            GameCondition::Loss
        } else if self.landed() {
            GameCondition::Loss
        } else {
            GameCondition::Running
        }
    }

    /// One tick at the clock reading `now`, with the enemy at place `pick`
    /// chosen to shoot.
    pub open spec fn tick(self, now: u64, pick: int) -> GameView {
        self.move_enemy(now).move_bullet(now).collision_detection().enemy_attack(
            now,
            pick,
        ).move_enemy_bullets(now)
    }

    /// The player's slot takes a new bullet: it is empty, or the bullet in
    /// it is destroyed.
    pub open spec fn slot_free(self) -> bool {
        !self.bullet_live()
    }

    /// The bullet the ship shoots: it starts at the ship's middle column,
    /// one row above it, and heads up.
    pub open spec fn ship_shot(self) -> BulletView {
        let c = self.ship.obj.container;
        BulletView::fresh(
            (c.top.x + c.width() / 2) as usize,
            (c.top.y - 1) as usize,
            Direction::UP,
        )
    }

    /// The ship shoots, unless a live bullet of its own is still under way.
    pub open spec fn fire_bullet(self) -> GameView {
        if self.slot_free() {
            GameView { last_bullet: Some(self.ship_shot()), ..self }
        } else {
            self
        }
    }

    /// The playable area's boundary stops the ship's step in `direction`:
    /// to the right once its trailing edge has reached the right boundary,
    /// to the left once its leading edge has reached the left one.
    pub open spec fn ship_blocked(self, direction: Direction) -> bool {
        ||| direction == Direction::RIGHT && self.ship.obj.container.bottom.x
            >= self.playable_area.bottom.x
        ||| direction == Direction::LEFT && self.ship.obj.container.top.x
            <= self.playable_area.top.x
    }

    /// The ship's step in `direction`, unless the boundary stops it.
    pub open spec fn move_ship(self, direction: Direction) -> GameView {
        if self.ship_blocked(direction) {
            self
        } else {
            GameView { ship: self.ship.moved(direction), ..self }
        }
    }

    /// The state a new game starts in: all lives, no score, no bullet, a
    /// fresh formation and a fresh ship.
    pub open spec fn reset_game(self) -> GameView {
        GameView {
            lives: self.max_lives,
            score: 0,
            last_bullet: None,
            enemy_bullets: Seq::empty(),
            ..self
        }.init()
    }

    /// The game can go on to a harder round: there is room for one life
    /// more and for one row and one column more.
    pub open spec fn can_grow(self) -> bool {
        &&& self.lives < usize::MAX
        &&& self.enemy_rows < usize::MAX
        &&& self.enemy_cols < usize::MAX
        &&& formation_fits(
            self.playable_area,
            0,
            0,
            clamped((self.enemy_rows + 1) as usize, self.playable_area.height()) as int,
            clamped((self.enemy_cols + 1) as usize, self.playable_area.width()) as int,
        )
    }

    /// The state the next round starts in, after a game that ended as
    /// `last`. A game that was won goes on with its score, one life more
    /// than it ended with, and one row and one column more of enemies. Any
    /// other game starts over.
    pub open spec fn next_round(self, last: GameCondition) -> GameView {
        if last == GameCondition::Win {
            GameView {
                lives: (self.lives + 1) as usize,
                score: self.score,
                ..self.reset_game()
            }.set_enemy_rows_cols(
                (self.enemy_rows + 1) as usize,
                (self.enemy_cols + 1) as usize,
            )
        } else {
            self.reset_game()
        }
    }
}

/// A fresh formation that fits has as many enemies as its size says, each
/// on a single cell of the grid with a column to spare on its right and
/// two rows below, and none destroyed.
pub proof fn lemma_formation_is_fresh(
    area: Container,
    start_x: int,
    start_y: int,
    rows: int,
    cols: int,
)
    requires
        0 <= start_x,
        0 <= start_y,
        0 <= rows,
        0 <= cols,
        formation_fits(area, start_x, start_y, rows, cols),
    ensures
        formation(area, start_x, start_y, rows, cols).len() == rows * cols,
        forall|k: int|
            0 <= k < rows * cols ==> {
                let e = #[trigger] formation(area, start_x, start_y, rows, cols)[k];
                &&& !e.obj.destroyed
                &&& e.points == ALIEN_POINTS
                &&& e.obj.container.top == e.obj.container.bottom
                &&& 1 <= e.obj.pos().x < usize::MAX
                &&& e.obj.pos().x == (first_col(area, start_x) + k % cols) * ENEMY_GAP
                &&& e.obj.pos().y == first_row(area, start_y) + k / cols
                &&& e.obj.pos().y + 2 <= usize::MAX
            },
{
    assert(0 <= rows * cols) by (nonlinear_arith)
        requires
            0 <= rows,
            0 <= cols,
    ;
    assert forall|k: int| 0 <= k < rows * cols implies {
        let e = #[trigger] formation(area, start_x, start_y, rows, cols)[k];
        &&& !e.obj.destroyed
        &&& e.points == ALIEN_POINTS
        &&& e.obj.container.top == e.obj.container.bottom
        &&& 1 <= e.obj.pos().x < usize::MAX
        &&& e.obj.pos().x == (first_col(area, start_x) + k % cols) * ENEMY_GAP
        &&& e.obj.pos().y == first_row(area, start_y) + k / cols
        &&& e.obj.pos().y + 2 <= usize::MAX
    } by {
        assert(cols > 0) by (nonlinear_arith)
            requires
                0 <= k < rows * cols,
                0 <= rows,
                0 <= cols,
        ;
        vstd::arithmetic::div_mod::lemma_fundamental_div_mod(k, cols);
        vstd::arithmetic::div_mod::lemma_mod_bound(k, cols);
        vstd::arithmetic::div_mod::lemma_div_pos_is_pos(k, cols);
        let q = k / cols;
        let m = k % cols;
        assert(q < rows) by (nonlinear_arith)
            requires
                k == cols * q + m,
                0 <= m < cols,
                k < rows * cols,
                0 <= q,
                0 <= rows,
        ;
    }
}

} // verus!
