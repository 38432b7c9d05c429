//! The simulation engine.
//!
//! [`Game`] owns the formation, the ship and the bullets, and steps them
//! once per tick. Every step has two forms: one that is handed the clock
//! reading, and whose result is fixed by [`GameView`]; and one that reads
//! the system clock itself and then does the same.

use rand::Rng;
use vstd::prelude::*;
use crate::audio::Sound;
use crate::clock::{is_interval_over, now_millis};
use crate::container::{Container, Direction, Point};
use crate::enemy::{AlienView, SmallAlien, ALIEN_POINTS};
use crate::laws::lemma_score_moves_by_the_struck;
use crate::model::{
    at_edge, clamped, crosses, first_alive_at, first_col, first_row, formation,
    formation_fits, formation_member, hits_ship, is_first_alive_at, lemma_formation_is_fresh,
    misses, on_edge, playable_area_of, playable_width, sounds_off, spawn_ship,
    stays, stepped, tick_cues, window_fits, window_of, GameView, ENEMY_ATTACK_INTERVAL,
    ENEMY_GAP, ENEMY_MOVE_INTERVAL, ENEMY_SPEED, SHIP_LENGTH, SHIP_SPEED, WINDOW_PADDING,
};
use crate::seq_facts::{
    lemma_filter_empty, lemma_filter_members, lemma_filter_push, lemma_filter_take_step,
};
use crate::ship::Ship;
use crate::weapon::{Bullet, BulletView};

pub use crate::model::GameCondition;

verus! {

/// The enemies of a vector as mathematical values.
pub open spec fn aliens_view(v: Seq<SmallAlien>) -> Seq<AlienView> {
    v.map_values(|a: SmallAlien| a@)
}

/// The bullets of a vector as mathematical values.
pub open spec fn bullets_view(v: Seq<Bullet>) -> Seq<BulletView> {
    v.map_values(|b: Bullet| b@)
}

/// The bullet of a slot as a mathematical value.
pub open spec fn slot_view(slot: Option<Bullet>) -> Option<BulletView> {
    match slot {
        Some(b) => Some(b@),
        None => None,
    }
}

/// The engine: the window, the formation, the ship, the bullets, and the
/// score and lives.
pub struct Game {
    score: u64,
    lives: usize,
    max_lives: usize,
    enemies: Vec<SmallAlien>,
    window: Container,
    playable_area: Container,
    enemy_rows: usize,
    enemy_cols: usize,
    enemy_direction: Direction,
    enemy_speed: usize,
    enemy_last_move: u64,
    enemy_move_duration: u64,
    enemy_gap: usize,
    enemy_bullets: Vec<Bullet>,
    enemy_attack_wait_duration: u64,
    last_enemy_attack_tick: u64,
    last_bullet: Option<Bullet>,
    ship: Ship,
    sounds: Vec<Sound>,
}

impl View for Game {
    type V = GameView;

    closed spec fn view(&self) -> GameView {
        GameView {
            score: self.score,
            lives: self.lives,
            max_lives: self.max_lives,
            enemies: aliens_view(self.enemies@),
            window: self.window,
            playable_area: self.playable_area,
            enemy_rows: self.enemy_rows,
            enemy_cols: self.enemy_cols,
            enemy_direction: self.enemy_direction,
            enemy_speed: self.enemy_speed,
            enemy_last_move: self.enemy_last_move,
            enemy_move_duration: self.enemy_move_duration,
            enemy_gap: self.enemy_gap,
            enemy_bullets: bullets_view(self.enemy_bullets@),
            enemy_attack_wait_duration: self.enemy_attack_wait_duration,
            last_enemy_attack_tick: self.last_enemy_attack_tick,
            last_bullet: slot_view(self.last_bullet),
            ship: self.ship@,
            sounds: self.sounds@,
        }
    }
}

/// Seven tenths of `width`, rounded down.
fn seven_tenths(width: usize) -> (w: usize)
    ensures
        w == playable_width(width as int),
{
    width / 10 * 7 + (width % 10) * 7 / 10
}

/// Whether a window of this size leaves a playable area whose corners are
/// in order.
pub fn fits_window(width: usize, height: usize) -> (ok: bool)
    ensures
        ok == window_fits(width, height),
{
    seven_tenths(width) >= 2 * WINDOW_PADDING && height >= 2 * WINDOW_PADDING
}

/// Whether a formation of this size and offset lies on the grid, with a
/// column to spare on its right and two rows to spare below.
pub fn fits_formation(area: &Container, start_x: usize, start_y: usize, rows: usize, cols: usize)
    -> (ok: bool)
    ensures
        ok == formation_fits(*area, start_x as int, start_y as int, rows as int, cols as int),
{
    let right = match start_x.checked_add(area.top.y) {
        Some(a) => match a.checked_add(1) {
            Some(b) => match b.checked_add(cols) {
                Some(c) => c.checked_mul(ENEMY_GAP),
                None => None,
            },
            None => None,
        },
        None => None,
    };
    let below = match start_y.checked_add(area.top.x) {
        Some(a) => match a.checked_add(1) {
            Some(b) => match b.checked_add(rows) {
                Some(c) => c.checked_add(2),
                None => None,
            },
            None => None,
        },
        None => None,
    };
    let count = rows.checked_mul(cols);
    right.is_some() && below.is_some() && count.is_some()
}

/// Builds a fresh formation, row by row.
fn build_formation(area: &Container, start_x: usize, start_y: usize, rows: usize, cols: usize)
    -> (enemies: Vec<SmallAlien>)
    requires
        formation_fits(*area, start_x as int, start_y as int, rows as int, cols as int),
    ensures
        aliens_view(enemies@) == formation(
            *area,
            start_x as int,
            start_y as int,
            rows as int,
            cols as int,
        ),
{
    let mut enemies: Vec<SmallAlien> = Vec::new();
    let start_row = start_y + area.top.x + 1;
    let start_col = start_x + area.top.y + 1;
    let mut r: usize = 0;
    while r < rows
        invariant
            r <= rows,
            start_row == first_row(*area, start_y as int),
            start_col == first_col(*area, start_x as int),
            formation_fits(*area, start_x as int, start_y as int, rows as int, cols as int),
            enemies@.len() == r * cols,
            forall|k: int|
                0 <= k < enemies@.len() ==> (#[trigger] enemies@[k])@ == formation_member(
                    *area,
                    start_x as int,
                    start_y as int,
                    cols as int,
                    k,
                ),
        decreases rows - r,
    {
        let mut c: usize = 0;
        while c < cols
            invariant
                r < rows,
                c <= cols,
                start_row == first_row(*area, start_y as int),
                start_col == first_col(*area, start_x as int),
                formation_fits(*area, start_x as int, start_y as int, rows as int, cols as int),
                enemies@.len() == r * cols + c,
                forall|k: int|
                    0 <= k < enemies@.len() ==> (#[trigger] enemies@[k])@ == formation_member(
                        *area,
                        start_x as int,
                        start_y as int,
                        cols as int,
                        k,
                    ),
            decreases cols - c,
        {
            proof {
                let k = r * cols + c;
                vstd::arithmetic::div_mod::lemma_fundamental_div_mod_converse(
                    k as int,
                    cols as int,
                    r as int,
                    c as int,
                );
            }
            let x = (start_col + c) * ENEMY_GAP;
            let enemy = SmallAlien::new(x, start_row + r);
            enemies.push(enemy);
            c += 1;
        }
        proof {
            assert(r * cols + cols == (r + 1) * cols) by (nonlinear_arith);
        }
        r += 1;
    }
    enemies
}

/// Whether some enemy stands at an edge of the playable area.
fn is_enemy_edge(enemies: &Vec<SmallAlien>, area: &Container) -> (edge: bool)
    requires
        area.top.x < usize::MAX,
        area.bottom.x >= 1,
    ensures
        edge == on_edge(aliens_view(enemies@), *area),
{
    let start_x = area.top.x + 1;
    let end_x = area.bottom.x - 1;
    let mut i: usize = 0;
    while i < enemies.len()
        invariant
            i <= enemies.len(),
            start_x == area.top.x + 1,
            end_x == area.bottom.x - 1,
            forall|j: int| 0 <= j < i ==> !at_edge(#[trigger] aliens_view(enemies@)[j], *area),
        decreases enemies.len() - i,
    {
        let current_pos = enemies[i].get_pos();
        if current_pos.x >= end_x || current_pos.x <= start_x {
            assert(at_edge(aliens_view(enemies@)[i as int], *area));
            return true;
        }
        i += 1;
    }
    false
}

/// Takes every enemy one step of the formation further.
fn shift_formation(enemies: &mut Vec<SmallAlien>, d: Direction, speed: usize, turns: bool)
    requires
        forall|i: int|
            0 <= i < old(enemies)@.len() ==> {
                let p = (#[trigger] old(enemies)@[i])@.obj.pos();
                &&& d == Direction::RIGHT ==> p.x + speed <= usize::MAX
                &&& d != Direction::RIGHT ==> p.x >= speed
                &&& turns ==> p.y < usize::MAX
            },
    ensures
        aliens_view(final(enemies)@) == aliens_view(old(enemies)@).map_values(
            |e: AlienView| stepped(e, d, speed as int, turns),
        ),
{
    let mut i: usize = 0;
    while i < enemies.len()
        invariant
            i <= enemies@.len(),
            enemies@.len() == old(enemies)@.len(),
            forall|j: int|
                0 <= j < i ==> (#[trigger] enemies@[j])@ == stepped(
                    old(enemies)@[j]@,
                    d,
                    speed as int,
                    turns,
                ),
            forall|j: int| i <= j < enemies@.len() ==> #[trigger] enemies@[j] == old(enemies)@[j],
            forall|j: int|
                0 <= j < old(enemies)@.len() ==> {
                    let p = (#[trigger] old(enemies)@[j])@.obj.pos();
                    &&& d == Direction::RIGHT ==> p.x + speed <= usize::MAX
                    &&& d != Direction::RIGHT ==> p.x >= speed
                    &&& turns ==> p.y < usize::MAX
                },
        decreases enemies@.len() - i,
    {
        let mut current_pos = enemies[i].get_pos();
        match d {
            Direction::RIGHT => {
                current_pos.x = current_pos.x + speed;
            },
            _ => {
                current_pos.x = current_pos.x - speed;
            },
        }
        if turns {
            current_pos.y += 1;
        }
        enemies[i].set_pos(&current_pos);
        i += 1;
    }
}

/// Whether the bullet's next row lies on the area's top or bottom boundary
/// or beyond it.
fn bullet_crosses(b: &Bullet, area: &Container) -> (c: bool)
    ensures
        c == crosses(b@, *area),
{
    match b.next_row() {
        Some(y) => y <= area.top.y || y >= area.bottom.y,
        None => true,
    }
}

/// Whether the bullet is about to hit the ship.
fn bullet_hits_ship(b: &Bullet, ship: &Ship) -> (h: bool)
    ensures
        h == hits_ship(b@, ship@),
{
    if b.is_destroyed() || b.get_direction() != Direction::DOWN {
        return false;
    }
    match b.next_row() {
        Some(y) => {
            let span = ship.get_container();
            let x = b.get_pos().x;
            y == span.top.y && span.top.x <= x && x <= span.bottom.x
        },
        None => false,
    }
}

/// The first place of the formation with a live enemy on `(x, y)`.
fn first_hit(enemies: &Vec<SmallAlien>, x: usize, y: usize) -> (hit: Option<usize>)
    ensures
        first_alive_at(aliens_view(enemies@), x as int, y as int) == match hit {
            Some(i) => Some(i as int),
            None => None,
        },
        hit matches Some(i) ==> i < enemies@.len(),
{
    let ghost view = aliens_view(enemies@);
    let mut i: usize = 0;
    while i < enemies.len()
        invariant
            i <= enemies.len(),
            view == aliens_view(enemies@),
            forall|j: int| 0 <= j < i ==> !(#[trigger] view[j]).alive_at(x as int, y as int),
        decreases enemies.len() - i,
    {
        if !enemies[i].is_destroyed() {
            let e_pos = enemies[i].get_pos();
            if e_pos.x == x && e_pos.y == y {
                proof {
                    assert(is_first_alive_at(view, x as int, y as int, i as int));
                }
                return Some(i);
            }
        }
        i += 1;
    }
    None
}

/// Takes the bullets that hit the ship out of the vector, and says whether
/// there was one.
fn remove_hits(bullets: &mut Vec<Bullet>, ship: &Ship) -> (hit: bool)
    ensures
        bullets_view(final(bullets)@) == bullets_view(old(bullets)@).filter(misses(ship@)),
        hit == exists|j: int|
            0 <= j < old(bullets)@.len() && hits_ship(
                #[trigger] bullets_view(old(bullets)@)[j],
                ship@,
            ),
{
    let ghost all = bullets_view(old(bullets)@);
    let ghost mut k: int = 0;
    let mut hit = false;
    let mut i: usize = 0;
    proof {
        lemma_filter_empty(misses(ship@));
    }
    while i < bullets.len()
        invariant
            all == bullets_view(old(bullets)@),
            0 <= k <= all.len(),
            i <= bullets@.len(),
            bullets@.len() - i == all.len() - k,
            bullets_view(bullets@).take(i as int) == all.take(k).filter(misses(ship@)),
            bullets_view(bullets@).skip(i as int) == all.skip(k),
            hit == exists|j: int| 0 <= j < k && hits_ship(#[trigger] all[j], ship@),
        decreases bullets@.len() - i,
    {
        let ghost before = bullets_view(bullets@);
        proof {
            lemma_filter_take_step(all, misses(ship@), k);
            assert(before.skip(i as int)[0] == all.skip(k)[0]);
        }
        if bullet_hits_ship(&bullets[i], ship) {
            let mut gone = bullets.remove(i);
            gone.destroy();
            hit = true;
            proof {
                assert(all.skip(k + 1) =~= all.skip(k).skip(1));
            }
        } else {
            proof {
                assert(all.skip(k + 1) =~= all.skip(k).skip(1));
            }
            i += 1;
        }
        proof {
            k = k + 1;
        }
    }
    proof {
        assert(all.take(k) =~= all);
    }
    hit
}

/// Gives every bullet its tick at `now`. Those whose next row would cross
/// the area's boundary leave the vector instead. The sounds that are due go
/// to the end of `sounds`.
fn advance_bullets(bullets: &mut Vec<Bullet>, area: &Container, now: u64, sounds: &mut Vec<Sound>)
    ensures
        bullets_view(final(bullets)@) == bullets_view(old(bullets)@).filter(
            stays(*area),
        ).map_values(|b: BulletView| b.ticked(now)),
        final(sounds)@ == old(sounds)@ + tick_cues(
            bullets_view(old(bullets)@).filter(stays(*area)),
        ),
{
    let ghost all = bullets_view(old(bullets)@);
    let ghost mut k: int = 0;
    let mut i: usize = 0;
    proof {
        lemma_filter_empty(stays(*area));
        lemma_filter_empty(sounds_off());
    }
    while i < bullets.len()
        invariant
            all == bullets_view(old(bullets)@),
            0 <= k <= all.len(),
            i <= bullets@.len(),
            bullets@.len() - i == all.len() - k,
            bullets_view(bullets@).take(i as int) == all.take(k).filter(stays(*area)).map_values(
                |b: BulletView| b.ticked(now),
            ),
            bullets_view(bullets@).skip(i as int) == all.skip(k),
            sounds@ == old(sounds)@ + tick_cues(all.take(k).filter(stays(*area))),
        decreases bullets@.len() - i,
    {
        let ghost before = bullets_view(bullets@);
        let ghost kept = all.take(k).filter(stays(*area));
        proof {
            lemma_filter_take_step(all, stays(*area), k);
            assert(before.skip(i as int)[0] == all.skip(k)[0]);
        }
        if bullet_crosses(&bullets[i], area) {
            let mut gone = bullets.remove(i);
            gone.destroy();
            proof {
                assert(all.skip(k + 1) =~= all.skip(k).skip(1));
            }
        } else {
            let cue = bullets[i].move_tick_at(now);
            if let Some(sound) = cue {
                sounds.push(sound);
            }
            proof {
                let after = bullets_view(bullets@);
                let b = all[k];
                lemma_filter_push(kept, sounds_off(), b);
                assert(after.take(i as int) =~= before.take(i as int));
                assert(all.skip(k + 1) =~= all.skip(k).skip(1));
            }
            i += 1;
        }
        proof {
            k = k + 1;
        }
    }
    proof {
        assert(all.take(k) =~= all);
    }
}

/// A ship where ships enter the playable area.
fn fresh_ship(area: &Container) -> (ship: Ship)
    requires
        area.top.x + 1 + SHIP_LENGTH <= usize::MAX,
        area.bottom.y >= 1,
    ensures
        ship@ == spawn_ship(*area),
        ship@.wf(),
{
    Ship::new(area.top.x + 1, area.bottom.y - 1, SHIP_LENGTH, SHIP_SPEED)
}

/// A row or column count held to what an extent of the playable area takes.
fn clamp_count(n: usize, extent: usize) -> (c: usize)
    ensures
        c == clamped(n, extent as int),
{
    if extent < 1 {
        0
    } else if n >= extent - 1 {
        extent - 1
    } else {
        n
    }
}

/// Draws a place below `len` with `rand::Rng::gen_range` on the thread's
/// generator, `rand::thread_rng`. The claim is the one that call makes of a
/// half-open range: the place is below `len`. An empty range, on which the
/// call panics, is left out. Which place comes is chance. The generator
/// cannot be had where the system gives it no seed; nothing here rules that
/// out.
#[verifier::external_body]
fn random_index(len: usize) -> (pick: usize)
    requires
        len > 0,
    ensures
        pick < len,
{
    rand::thread_rng().gen_range(0..len)
}

impl Game {
    /// The window and the playable area inside it, for a window of the
    /// given size. The playable area is the window's left seven tenths,
    /// less the padding on every side.
    pub fn build_containers(width: usize, height: usize) -> (areas: (Container, Container))
        requires
            window_fits(width, height),
        ensures
            areas.0 == window_of(width, height),
            areas.1 == playable_area_of(width, height),
            areas.0.wf(),
            areas.1.wf(),
    {
        let window = Container {
            top: Point { x: 0, y: 0 },
            bottom: Point { x: width, y: height },
            padding_vertical: WINDOW_PADDING,
            padding_horizontal: WINDOW_PADDING,
        };
        let playable_width = seven_tenths(width);
        let playable_area = Container {
            top: Point {
                x: window.top.x + window.padding_horizontal,
                y: window.top.y + window.padding_vertical,
            },
            bottom: Point {
                x: playable_width - window.padding_horizontal,
                y: window.bottom.y - window.padding_vertical,
            },
            padding_horizontal: 0,
            padding_vertical: 0,
        };
        (window, playable_area)
    }

    /// A new engine whose clocks start at `now`.
    pub fn new_at(
        width: usize,
        height: usize,
        score: u64,
        lives: usize,
        enemy_rows: usize,
        enemy_cols: usize,
        now: u64,
    ) -> (game: Self)
        requires
            window_fits(width, height),
            formation_fits(
                playable_area_of(width, height),
                0,
                0,
                enemy_rows as int,
                enemy_cols as int,
            ),
        ensures
            game@ == GameView::initial(width, height, score, lives, enemy_rows, enemy_cols, now),
            game@.wf(),
            game@.room_below(2),
    {
        let (window, playable_area) = Self::build_containers(width, height);
        let ship = Ship::new(
            playable_area.top.x + 1,
            playable_area.bottom.y - 1,
            SHIP_LENGTH,
            SHIP_SPEED,
        );
        let enemies = build_formation(&playable_area, 0, 0, enemy_rows, enemy_cols);
        let game = Self {
            score,
            lives,
            max_lives: lives,
            window,
            enemies,
            playable_area,
            enemy_rows,
            enemy_cols,
            enemy_direction: Direction::LEFT,
            enemy_speed: ENEMY_SPEED,
            last_bullet: None,
            enemy_last_move: now,
            enemy_move_duration: ENEMY_MOVE_INTERVAL,
            ship,
            enemy_gap: ENEMY_GAP,
            enemy_bullets: Vec::new(),
            enemy_attack_wait_duration: ENEMY_ATTACK_INTERVAL,
            last_enemy_attack_tick: now,
            sounds: Vec::new(),
        };
        proof {
            assert(game@.enemy_bullets =~= Seq::empty());
            lemma_formation_is_fresh(
                playable_area,
                0,
                0,
                enemy_rows as int,
                enemy_cols as int,
            );
        }
        game
    }

    /// A new engine whose clocks start at whatever the system clock says.
    pub fn new(
        width: usize,
        height: usize,
        score: u64,
        lives: usize,
        enemy_rows: usize,
        enemy_cols: usize,
    ) -> (game: Self)
        requires
            window_fits(width, height),
            formation_fits(
                playable_area_of(width, height),
                0,
                0,
                enemy_rows as int,
                enemy_cols as int,
            ),
        ensures
            exists|now: u64|
                game@ == #[trigger] GameView::initial(
                    width,
                    height,
                    score,
                    lives,
                    enemy_rows,
                    enemy_cols,
                    now,
                ),
            game@.wf(),
            game@.room_below(2),
    {
        let now = now_millis();
        Self::new_at(width, height, score, lives, enemy_rows, enemy_cols, now)
    }

    pub fn get_max_lives(&self) -> (lives: usize)
        ensures
            lives == self@.max_lives,
    {
        self.max_lives
    }

    pub fn set_lives(&mut self, lives: usize)
        ensures
            final(self)@ == (GameView { lives, ..old(self)@ }),
    {
        self.lives = lives
    }

    pub fn set_score(&mut self, score: u64)
        ensures
            final(self)@ == (GameView { score, ..old(self)@ }),
    {
        self.score = score;
    }

    /// Resizes the window. Ship, formation and bullets stay where they are.
    pub fn set_window(&mut self, width: usize, height: usize)
        requires
            window_fits(width, height),
        ensures
            final(self)@ == old(self)@.set_window(width, height),
            old(self)@.wf() ==> final(self)@.wf(),
    {
        let (window, playable_area) = Self::build_containers(width, height);
        self.window = window;
        self.playable_area = playable_area;
    }

    /// Sets the formation's size, held to what the playable area takes, and
    /// builds the formation anew.
    pub fn set_enemy_rows_cols(&mut self, rows: usize, cols: usize)
        requires
            old(self)@.wf(),
            formation_fits(
                old(self)@.playable_area,
                0,
                0,
                clamped(rows, old(self)@.playable_area.height()) as int,
                clamped(cols, old(self)@.playable_area.width()) as int,
            ),
        ensures
            final(self)@ == old(self)@.set_enemy_rows_cols(rows, cols),
            final(self)@.wf(),
            final(self)@.room_below(2),
    {
        self.enemy_rows = clamp_count(rows, self.playable_area.get_height());
        self.enemy_cols = clamp_count(cols, self.playable_area.get_width());
        self.enemies = build_formation(&self.playable_area, 0, 0, self.enemy_rows, self.enemy_cols);
        proof {
            lemma_formation_is_fresh(
                self.playable_area,
                0,
                0,
                self.enemy_rows as int,
                self.enemy_cols as int,
            );
        }
    }

    /// Whether a formation of `rows` by `cols`, held to what the playable
    /// area takes, lies on the grid.
    pub fn can_set_enemy_rows_cols(&self, rows: usize, cols: usize) -> (ok: bool)
        requires
            self@.wf(),
        ensures
            ok == formation_fits(
                self@.playable_area,
                0,
                0,
                clamped(rows, self@.playable_area.height()) as int,
                clamped(cols, self@.playable_area.width()) as int,
            ),
    {
        let rows = clamp_count(rows, self.playable_area.get_height());
        let cols = clamp_count(cols, self.playable_area.get_width());
        fits_formation(&self.playable_area, 0, 0, rows, cols)
    }

    pub fn get_enemies_rows_cols(&self) -> (size: (usize, usize))
        ensures
            size == (self@.enemy_rows, self@.enemy_cols),
    {
        (self.enemy_rows, self.enemy_cols)
    }

    pub fn get_playablearea(&self) -> (area: Container)
        ensures
            area == self@.playable_area,
    {
        self.playable_area
    }

    pub fn get_window(&self) -> (window: Container)
        ensures
            window == self@.window,
    {
        self.window
    }

    pub fn get_score(&self) -> (score: u64)
        ensures
            score == self@.score,
    {
        self.score
    }

    pub fn get_lives(&self) -> (lives: usize)
        ensures
            lives == self@.lives,
    {
        self.lives
    }

    /// Adds to the score.
    pub fn add_score(&mut self, s: u64)
        requires
            old(self)@.score + s <= u64::MAX,
        ensures
            final(self)@ == (GameView { score: (old(self)@.score + s) as u64, ..old(self)@ }),
    {
        self.score = self.score + s;
    }

    /// Puts a fresh ship where ships enter.
    pub fn init_ship(&mut self)
        requires
            old(self)@.wf(),
        ensures
            final(self)@ == old(self)@.init_ship(),
            final(self)@.wf(),
    {
        self.ship = fresh_ship(&self.playable_area);
    }

    /// Builds the formation anew, shifted by the given offsets.
    pub fn init_enemy(&mut self, start_x: usize, start_y: usize)
        requires
            old(self)@.wf(),
            formation_fits(
                old(self)@.playable_area,
                start_x as int,
                start_y as int,
                old(self)@.enemy_rows as int,
                old(self)@.enemy_cols as int,
            ),
        ensures
            final(self)@ == old(self)@.init_enemy(start_x, start_y),
            final(self)@.wf(),
            final(self)@.room_below(2),
    {
        self.enemies = build_formation(
            &self.playable_area,
            start_x,
            start_y,
            self.enemy_rows,
            self.enemy_cols,
        );
        proof {
            lemma_formation_is_fresh(
                self.playable_area,
                start_x as int,
                start_y as int,
                self.enemy_rows as int,
                self.enemy_cols as int,
            );
        }
    }

    /// The formation's step at the clock reading `now`.
    pub fn move_enemy_at(&mut self, now: u64)
        requires
            old(self)@.wf(),
            old(self)@.room_below(1),
        ensures
            final(self)@ == old(self)@.move_enemy(now),
            final(self)@.wf(),
    {
        if !is_interval_over(now, self.enemy_last_move, self.enemy_move_duration) {
            return ;
        }
        self.enemy_last_move = now;
        let turns = is_enemy_edge(&self.enemies, &self.playable_area);
        if turns {
            match self.enemy_direction {
                Direction::LEFT => {
                    self.enemy_direction = Direction::RIGHT;
                },
                Direction::RIGHT => {
                    self.enemy_direction = Direction::LEFT;
                },
                _ => {},
            }
        }
        proof {
            assert forall|i: int| 0 <= i < self.enemies@.len() implies {
                let p = (#[trigger] self.enemies@[i])@.obj.pos();
                &&& self.enemy_direction == Direction::RIGHT ==> p.x + self.enemy_speed
                    <= usize::MAX
                &&& self.enemy_direction != Direction::RIGHT ==> p.x >= self.enemy_speed
                &&& turns ==> p.y < usize::MAX
            } by {
                assert(self.enemies@[i]@ == old(self)@.enemies[i]);
            }
        }
        shift_formation(&mut self.enemies, self.enemy_direction, self.enemy_speed, turns);
    }

    /// The formation's step at whatever the system clock says.
    pub fn move_enemy(&mut self)
        requires
            old(self)@.wf(),
            old(self)@.room_below(1),
        ensures
            exists|now: u64| final(self)@ == #[trigger] old(self)@.move_enemy(now),
            final(self)@.wf(),
    {
        let now = now_millis();
        self.move_enemy_at(now);
    }

    pub fn get_enemies(&self) -> (enemies: &Vec<SmallAlien>)
        ensures
            aliens_view(enemies@) == self@.enemies,
    {
        &self.enemies
    }

    /// The formation's shot at the clock reading `now`, from the enemy at
    /// place `pick`.
    pub fn enemy_attack_at(&mut self, now: u64, pick: usize)
        requires
            old(self)@.wf(),
            old(self)@.room_below(1),
            old(self)@.can_pick(pick as int),
        ensures
            final(self)@ == old(self)@.enemy_attack(now, pick as int),
            final(self)@.wf(),
    {
        if self.enemies.len() == 0 || !is_interval_over(
            now,
            self.last_enemy_attack_tick,
            self.enemy_attack_wait_duration,
        ) {
            return ;
        }
        let sel_enemy = &self.enemies[pick];
        let enemy_container = sel_enemy.get_container();
        let enemy_fire_stride: usize = sel_enemy.get_width() / 2;
        let enemy_fire_x = enemy_container.top.x + enemy_fire_stride;
        let enemy_fire_y = enemy_container.bottom.y + 1;
        let bullet = Bullet::new(enemy_fire_x, enemy_fire_y, Direction::DOWN);
        self.enemy_bullets.push(bullet);
        self.last_enemy_attack_tick = now;
        proof {
            assert(self@.enemy_bullets =~= old(self)@.enemy_bullets.push(
                old(self)@.shot_of(pick as int),
            ));
        }
    }

    /// The formation's shot at whatever the system clock says, from an
    /// enemy drawn by chance.
    pub fn enemy_attack(&mut self)
        requires
            old(self)@.wf(),
            old(self)@.room_below(1),
        ensures
            exists|now: u64, pick: int|
                old(self)@.can_pick(pick) && final(self)@ == #[trigger] old(self)@.enemy_attack(
                    now,
                    pick,
                ),
            final(self)@.wf(),
    {
        let now = now_millis();
        let pick = self.draw_pick();
        self.enemy_attack_at(now, pick);
    }

    /// Draws the enemy that shoots next, where there is one.
    fn draw_pick(&self) -> (pick: usize)
        ensures
            self@.can_pick(pick as int),
    {
        if self.enemies.len() > 0 {
            random_index(self.enemies.len())
        } else {
            0
        }
    }

    /// Takes one life, where one is left.
    pub fn reduce_life(&mut self)
        ensures
            final(self)@ == (GameView { lives: old(self)@.lives_less_one(), ..old(self)@ }),
    {
        if self.lives > 0 {
            self.lives -= 1;
        }
    }

    /// The collision of the enemy bullets with the ship.
    pub fn detect_ship_collision(&mut self)
        requires
            old(self)@.wf(),
        ensures
            final(self)@ == old(self)@.detect_ship_collision(),
            final(self)@.wf(),
    {
        let hit = remove_hits(&mut self.enemy_bullets, &self.ship);
        proof {
            lemma_filter_members(old(self)@.enemy_bullets, misses(old(self)@.ship));
        }
        if hit {
            self.ship.destroy();
            self.reduce_life();
            self.ship = fresh_ship(&self.playable_area);
        }
    }

    /// The collision of the player's bullet with the formation.
    pub fn detect_enemy_collision(&mut self)
        requires
            old(self)@.wf(),
            old(self)@.score_room(),
        ensures
            final(self)@ == old(self)@.detect_enemy_collision(),
            final(self)@.wf(),
    {
        let slot = self.last_bullet.take();
        if let Some(mut bullet) = slot {
            if !bullet.is_destroyed() {
                let b_pos = bullet.get_pos();
                match bullet.next_row() {
                    Some(new_y) => {
                        if let Some(i) = first_hit(&self.enemies, b_pos.x, new_y) {
                            let cue = self.enemies[i].destroy();
                            bullet.destroy();
                            let points = self.enemies[i].get_points();
                            self.score = self.score + points as u64;
                            self.sounds.push(cue);
                            proof {
                                assert(self@.enemies =~= old(self)@.enemies.update(
                                    i as int,
                                    old(self)@.enemies[i as int].wrecked(),
                                ));
                            }
                        }
                    },
                    None => {},
                }
            }
            self.last_bullet = Some(bullet);
        }
    }

    /// Both collisions, the formation's first.
    pub fn collision_detection(&mut self)
        requires
            old(self)@.wf(),
            old(self)@.score_room(),
        ensures
            final(self)@ == old(self)@.collision_detection(),
            final(self)@.wf(),
    {
        self.detect_enemy_collision();
        self.detect_ship_collision();
    }

    /// The step of the player's bullet at the clock reading `now`.
    pub fn move_bullet_at(&mut self, now: u64)
        requires
            old(self)@.wf(),
        ensures
            final(self)@ == old(self)@.move_bullet(now),
            final(self)@.wf(),
    {
        let slot = self.last_bullet.take();
        if let Some(mut bullet) = slot {
            if bullet.is_destroyed() {
                self.last_bullet = Some(bullet);
            } else if bullet_crosses(&bullet, &self.playable_area) {
                bullet.destroy();
            } else {
                let cue = bullet.move_tick_at(now);
                if let Some(sound) = cue {
                    self.sounds.push(sound);
                }
                self.last_bullet = Some(bullet);
            }
        }
    }

    /// The step of the enemy bullets at the clock reading `now`.
    pub fn move_enemy_bullets_at(&mut self, now: u64)
        requires
            old(self)@.wf(),
        ensures
            final(self)@ == old(self)@.move_enemy_bullets(now),
            final(self)@.wf(),
    {
        advance_bullets(&mut self.enemy_bullets, &self.playable_area, now, &mut self.sounds);
        proof {
            lemma_filter_members(old(self)@.enemy_bullets, stays(old(self)@.playable_area));
        }
    }

    /// The ship shoots, unless a live bullet of its own is still under way.
    pub fn fire_bullet(&mut self)
        requires
            old(self)@.wf(),
        ensures
            final(self)@ == old(self)@.fire_bullet(),
            final(self)@.wf(),
    {
        let free = match &self.last_bullet {
            Some(bullet) => bullet.is_destroyed(),
            None => true,
        };
        if free {
            let ship_container = self.ship.get_container();
            let middle: usize = self.ship.get_width() / 2;
            let x = ship_container.top.x + middle;
            let y = ship_container.top.y - 1;
            let bullet = Bullet::new(x, y, Direction::UP);
            self.last_bullet = Some(bullet);
        }
    }

    /// Builds the formation and the ship anew.
    pub fn init(&mut self)
        requires
            old(self)@.wf(),
        ensures
            final(self)@ == old(self)@.init(),
            final(self)@.wf(),
            final(self)@.room_below(2),
    {
        self.init_enemy(0, 0);
        self.init_ship();
    }

    /// How the game stands.
    pub fn has_game_ended(&self) -> (condition: GameCondition)
        requires
            self@.wf(),
        ensures
            condition == self@.has_game_ended(),
    {
        let total_enemies = self.enemies.len();
        let mut destroyed_enemies: usize = 0;
        let mut i: usize = 0;
        while i < self.enemies.len()
            invariant
                i <= self.enemies.len(),
                destroyed_enemies <= i,
                destroyed_enemies == i <==> forall|j: int|
                    0 <= j < i ==> (#[trigger] self@.enemies[j]).obj.destroyed,
            decreases self.enemies.len() - i,
        {
            assert(self.enemies@[i as int]@ == self@.enemies[i as int]);
            if self.enemies[i].is_destroyed() {
                destroyed_enemies += 1;
            }
            i += 1;
        }
        if destroyed_enemies >= total_enemies {
            return GameCondition::Win;
        }
        if self.lives == 0 {
            return GameCondition::Loss;
        }
        let last_y = self.playable_area.bottom.y - 1;
        let mut k: usize = 0;
        while k < self.enemies.len()
            invariant
                k <= self.enemies.len(),
                !self@.cleared(),
                self@.lives != 0,
                last_y == self@.playable_area.bottom.y - 1,
                forall|j: int|
                    0 <= j < k ==> (#[trigger] self@.enemies[j]).obj.destroyed
                        || self@.enemies[j].obj.pos().y < last_y,
            decreases self.enemies.len() - k,
        {
            assert(self.enemies@[k as int]@ == self@.enemies[k as int]);
            let current_pos = self.enemies[k].get_pos();
            if !self.enemies[k].is_destroyed() && current_pos.y >= last_y {
                return GameCondition::Loss;
            }
            k += 1;
        }
        GameCondition::Running
    }

    pub fn get_enemy_bullets(&self) -> (bullets: &Vec<Bullet>)
        ensures
            bullets_view(bullets@) == self@.enemy_bullets,
    {
        &self.enemy_bullets
    }

    /// One tick at the clock reading `now`, with the enemy at place `pick`
    /// chosen to shoot: the formation's step, the step of the player's
    /// bullet, the collisions, the formation's shot and the step of the
    /// enemy bullets, in this order. Returns how the game stands after it.
    pub fn tick_at(&mut self, now: u64, pick: usize) -> (condition: GameCondition)
        requires
            old(self)@.wf(),
            old(self)@.has_headroom(),
            old(self)@.can_pick(pick as int),
        ensures
            final(self)@ == old(self)@.tick(now, pick as int),
            condition == final(self)@.has_game_ended(),
            final(self)@.wf(),
            final(self)@.lives <= old(self)@.lives,
            final(self)@.score >= old(self)@.score,
            final(self)@.score == old(self)@.score || final(self)@.score == old(self)@.score
                + ALIEN_POINTS,
    {
        proof {
            lemma_score_moves_by_the_struck(old(self)@, now, pick as int);
        }
        self.move_enemy_at(now);
        self.move_bullet_at(now);
        self.collision_detection();
        self.enemy_attack_at(now, pick);
        self.move_enemy_bullets_at(now);
        self.has_game_ended()
    }

    /// One tick at whatever the system clock says, with an enemy drawn by
    /// chance to shoot.
    pub fn tick(&mut self) -> (condition: GameCondition)
        requires
            old(self)@.wf(),
            old(self)@.has_headroom(),
        ensures
            exists|now: u64, pick: int|
                old(self)@.can_pick(pick) && final(self)@ == #[trigger] old(self)@.tick(now, pick),
            condition == final(self)@.has_game_ended(),
            final(self)@.wf(),
            final(self)@.lives <= old(self)@.lives,
            final(self)@.score >= old(self)@.score,
            final(self)@.score == old(self)@.score || final(self)@.score == old(self)@.score
                + ALIEN_POINTS,
    {
        let now = now_millis();
        let pick = self.draw_pick();
        self.tick_at(now, pick)
    }

    /// Whether a tick may follow: every enemy has two rows of the grid
    /// below it, and the score can take the points of one more enemy.
    pub fn can_tick(&self) -> (ok: bool)
        ensures
            ok == self@.has_headroom(),
    {
        if self.score > u64::MAX - ALIEN_POINTS as u64 {
            return false;
        }
        let mut i: usize = 0;
        while i < self.enemies.len()
            invariant
                i <= self.enemies.len(),
                forall|j: int|
                    0 <= j < i ==> (#[trigger] self@.enemies[j]).obj.pos().y + 2 <= usize::MAX,
            decreases self.enemies.len() - i,
        {
            assert(self.enemies@[i as int]@ == self@.enemies[i as int]);
            if self.enemies[i].get_pos().y > usize::MAX - 2 {
                return false;
            }
            i += 1;
        }
        true
    }

    /// The ship's step in `direction`, unless the playable area's boundary
    /// stops it.
    pub fn move_ship(&mut self, direction: Direction)
        requires
            old(self)@.wf(),
        ensures
            final(self)@ == old(self)@.move_ship(direction),
            final(self)@.wf(),
    {
        let ship_container = self.ship.get_container();
        if ship_container.bottom.x >= self.playable_area.bottom.x {
            if direction == Direction::RIGHT {
                return ;
            }
        }
        if ship_container.top.x <= self.playable_area.top.x {
            if direction == Direction::LEFT {
                return ;
            }
        }
        self.ship.move_ship(direction);
    }

    pub fn get_ship(&self) -> (ship: &Ship)
        ensures
            ship@ == self@.ship,
    {
        &self.ship
    }

    pub fn get_bullet(&self) -> (slot: &Option<Bullet>)
        ensures
            slot_view(*slot) == self@.last_bullet,
    {
        &self.last_bullet
    }

    /// Starts a new game: all lives, no score, no bullet, a fresh formation
    /// and a fresh ship.
    pub fn reset_game(&mut self)
        requires
            old(self)@.wf(),
        ensures
            final(self)@ == old(self)@.reset_game(),
            final(self)@.wf(),
            final(self)@.has_headroom(),
    {
        self.lives = self.max_lives;
        self.score = 0;
        self.last_bullet = None;
        self.enemy_bullets.clear();
        assert(self@.enemy_bullets =~= Seq::empty());
        self.init();
    }

    /// Whether the game can go on to a harder round.
    pub fn can_grow(&self) -> (ok: bool)
        requires
            self@.wf(),
        ensures
            ok == self@.can_grow(),
    {
        if self.lives == usize::MAX || self.enemy_rows == usize::MAX || self.enemy_cols
            == usize::MAX {
            return false;
        }
        let rows = clamp_count(self.enemy_rows + 1, self.playable_area.get_height());
        let cols = clamp_count(self.enemy_cols + 1, self.playable_area.get_width());
        fits_formation(&self.playable_area, 0, 0, rows, cols)
    }

    /// Starts the next round after a game that ended as `last`.
    pub fn next_round(&mut self, last: GameCondition)
        requires
            old(self)@.wf(),
            last == GameCondition::Win ==> old(self)@.can_grow(),
        ensures
            final(self)@ == old(self)@.next_round(last),
            final(self)@.wf(),
            final(self)@.room_below(2),
    {
        let last_score = self.get_score();
        let last_lives = self.get_lives();
        self.reset_game();
        if last == GameCondition::Win {
            self.set_lives(last_lives + 1);
            self.set_score(last_score);
            let (rows, cols) = self.get_enemies_rows_cols();
            self.set_enemy_rows_cols(rows + 1, cols + 1);
        }
    }

    /// Hands out the sounds that have become due since the last call,
    /// oldest first, and forgets them.
    pub fn take_sounds(&mut self) -> (sounds: Vec<Sound>)
        ensures
            sounds@ == old(self)@.sounds,
            final(self)@ == (GameView { sounds: Seq::empty(), ..old(self)@ }),
    {
        let mut sounds: Vec<Sound> = Vec::new();
        std::mem::swap(&mut sounds, &mut self.sounds);
        sounds
    }
}

impl Default for Game {
    /// The engine as it ships: a window of 64 by 32 cells, three lives and
    /// a formation of five rows of eleven.
    fn default() -> (game: Self)
        ensures
            exists|now: u64| game@ == #[trigger] GameView::initial(64, 32, 0, 3, 5, 11, now),
            game@.wf(),
            game@.has_headroom(),
    {
        Self::new(64, 32, 0, 3, 5, 11)
    }
}

} // verus!
