//! Bullets.

use vstd::prelude::*;
use crate::audio::Sound;
use crate::clock::{interval_over, is_interval_over, now_millis};
use crate::container::{Container, Direction, Point};
use crate::gobj::{GameObject, GameObjectView};

verus! {

/// The glyph a bullet is drawn with.
pub open spec fn bullet_symbol() -> Seq<char> {
    seq!['\u{2307}']
}

/// Rows a new bullet covers per advance.
pub const BULLET_SPEED: usize = 1;

/// Milliseconds a new bullet waits between two advances.
pub const BULLET_INTERVAL: u64 = 30;

/// What a bullet is, as a mathematical value.
pub struct BulletView {
    pub obj: GameObjectView,
    pub speed: usize,
    pub direction: Direction,
    /// When the bullet last took part in a tick; `None` while it is armed.
    pub last_tick: Option<u64>,
    pub interval: u64,
}

impl BulletView {
    /// A new, armed bullet on the cell `(x, y)`.
    pub open spec fn fresh(x: usize, y: usize, direction: Direction) -> BulletView {
        BulletView {
            obj: GameObjectView::fresh(Container::cell(Point { x, y }), bullet_symbol()),
            speed: BULLET_SPEED,
            direction,
            last_tick: None,
            interval: BULLET_INTERVAL,
        }
    }

    /// The row the next advance leads to: further down for a bullet heading
    /// down, further up for any other. It may lie off the grid.
    pub open spec fn next_y(self) -> int {
        if self.direction == Direction::DOWN {
            self.obj.pos().y + self.speed
        } else {
            self.obj.pos().y - self.speed
        }
    }

    /// The next row is one the grid has.
    pub open spec fn lookahead_fits(self) -> bool {
        0 <= self.next_y() <= usize::MAX
    }

    /// The cell the next advance leads to.
    pub open spec fn next_pos(self) -> Point {
        Point { x: self.obj.pos().x, y: self.next_y() as usize }
    }

    /// The bullet one advance further.
    pub open spec fn advanced(self) -> BulletView {
        BulletView { obj: self.obj.at(self.next_pos()), ..self }
    }

    /// The bullet has not taken part in a tick yet.
    pub open spec fn armed(self) -> bool {
        self.last_tick is None
    }

    /// A tick at `now` advances the bullet: it is moving, not destroyed, and
    /// its interval is over.
    pub open spec fn due(self, now: u64) -> bool {
        &&& !self.obj.destroyed
        &&& self.last_tick matches Some(t)
        &&& interval_over(now, t, self.interval)
    }

    /// The bullet after a tick at `now`. An armed one starts its clock
    /// without moving, destroyed or not. A moving one advances when its
    /// interval is over, and then starts the interval anew; a destroyed one
    /// never advances.
    pub open spec fn ticked(self, now: u64) -> BulletView {
        if self.armed() {
            BulletView { last_tick: Some(now), ..self }
        } else if self.due(now) {
            BulletView { last_tick: Some(now), ..self.advanced() }
        } else {
            self
        }
    }

    /// The sound that a tick sets off: the shot's, once, when an armed
    /// bullet starts its clock.
    pub open spec fn tick_cue(self) -> Option<Sound> {
        if self.armed() {
            Some(Sound::Fire)
        } else {
            None
        }
    }

    /// The same bullet, destroyed.
    pub open spec fn wrecked(self) -> BulletView {
        BulletView { obj: self.obj.wrecked(), ..self }
    }
}

/// A projectile that travels along its column, one advance per interval.
#[derive(Debug, Clone)]
pub struct Bullet {
    pub speed: usize,
    pub last_bullet_tick: Option<u64>,
    pub tick_duration: u64,
    pub gobj: GameObject,
    pub direction: Direction,
}

impl View for Bullet {
    type V = BulletView;

    open spec fn view(&self) -> BulletView {
        BulletView {
            obj: self.gobj@,
            speed: self.speed,
            direction: self.direction,
            last_tick: self.last_bullet_tick,
            interval: self.tick_duration,
        }
    }
}

impl Bullet {
    pub fn new(x: usize, y: usize, direction: Direction) -> (b: Self)
        ensures
            b@ == BulletView::fresh(x, y, direction),
    {
        let container = Container::new(Point { x, y }, Point { x, y });
        proof {
            reveal_strlit("\u{2307}");
            assert("\u{2307}"@ =~= bullet_symbol());
        }
        Self {
            speed: BULLET_SPEED,
            tick_duration: BULLET_INTERVAL,
            last_bullet_tick: None,
            gobj: GameObject::new(container, "\u{2307}"),
            direction,
        }
    }

    /// Sets the milliseconds between two advances.
    pub fn set_tick_duration(&mut self, duration: u64)
        ensures
            final(self)@ == (BulletView { interval: duration, ..old(self)@ }),
    {
        self.tick_duration = duration;
    }

    pub fn get_tick_duration(&self) -> (d: u64)
        ensures
            d == self@.interval,
    {
        self.tick_duration
    }

    pub fn set_speed(&mut self, speed: usize)
        ensures
            final(self)@ == (BulletView { speed, ..old(self)@ }),
    {
        self.speed = speed
    }

    pub fn get_speed(&self) -> (s: usize)
        ensures
            s == self@.speed,
    {
        self.speed
    }

    pub fn get_direction(&self) -> (d: Direction)
        ensures
            d == self@.direction,
    {
        self.direction
    }

    pub fn get_pos(&self) -> (p: Point)
        ensures
            p == self@.obj.pos(),
    {
        self.gobj.get_pos()
    }

    pub fn get_container(&self) -> (c: Container)
        ensures
            c == self@.obj.container,
    {
        self.gobj.get_container()
    }

    pub fn get_symbol(&self) -> (s: &str)
        ensures
            s@ == self@.obj.symbol,
    {
        self.gobj.get_symbol()
    }

    pub fn is_destroyed(&self) -> (d: bool)
        ensures
            d == self@.obj.destroyed,
    {
        self.gobj.is_destroyed()
    }

    pub fn destroy(&mut self)
        ensures
            final(self)@ == old(self)@.wrecked(),
    {
        self.gobj.destroy();
    }

    /// The row the next advance leads to, or `None` where the grid has no
    /// such row.
    pub fn next_row(&self) -> (row: Option<usize>)
        ensures
            row is Some <==> self@.lookahead_fits(),
            row matches Some(y) ==> y == self@.next_y(),
    {
        let y = self.gobj.get_pos().y;
        match self.direction {
            Direction::DOWN => y.checked_add(self.speed),
            _ => y.checked_sub(self.speed),
        }
    }

    /// Where the next advance would put the bullet. Nothing changes.
    pub fn next_pos(&self) -> (p: Point)
        requires
            self@.lookahead_fits(),
        ensures
            p == self@.next_pos(),
    {
        let pos = self.gobj.get_pos();
        match self.direction {
            Direction::DOWN => Point { x: pos.x, y: pos.y + self.speed },
            _ => Point { x: pos.x, y: pos.y - self.speed },
        }
    }

    /// Advances the bullet by its speed along its column.
    pub fn move_bullet(&mut self)
        requires
            old(self)@.lookahead_fits(),
        ensures
            final(self)@ == old(self)@.advanced(),
    {
        let pos = self.next_pos();
        self.gobj.set_pos(&pos);
    }

    /// One tick of the bullet at the clock reading `now`. Returns the sound
    /// that is due.
    pub fn move_tick_at(&mut self, now: u64) -> (cue: Option<Sound>)
        requires
            old(self)@.due(now) ==> old(self)@.lookahead_fits(),
        ensures
            final(self)@ == old(self)@.ticked(now),
            cue == old(self)@.tick_cue(),
    {
        match self.last_bullet_tick {
            None => {
                self.last_bullet_tick = Some(now);
                Some(Sound::Fire)
            },
            Some(t) => {
                if !self.gobj.is_destroyed() && is_interval_over(now, t, self.tick_duration) {
                    self.move_bullet();
                    self.last_bullet_tick = Some(now);
                }
                None
            },
        }
    }

    /// One tick of the bullet at whatever the system clock says.
    pub fn move_tick(&mut self) -> (cue: Option<Sound>)
        requires
            !old(self)@.obj.destroyed && !old(self)@.armed() ==> old(self)@.lookahead_fits(),
        ensures
            exists|now: u64| final(self)@ == #[trigger] old(self)@.ticked(now),
            cue == old(self)@.tick_cue(),
    {
        let now = now_millis();
        self.move_tick_at(now)
    }
}

} // verus!
