//! The enemy unit of the formation.

use vstd::prelude::*;
use crate::audio::Sound;
use crate::container::{Container, Point};
use crate::gobj::{GameObject, GameObjectView};

verus! {

/// The glyph an enemy is drawn with.
pub open spec fn alien_symbol() -> Seq<char> {
    seq!['\u{237E}']
}

/// The reward for destroying one enemy.
pub const ALIEN_POINTS: usize = 10;

/// What an enemy is, as a mathematical value.
pub struct AlienView {
    pub obj: GameObjectView,
    pub points: usize,
}

impl AlienView {
    /// A new enemy on the cell `(x, y)`.
    pub open spec fn fresh(x: usize, y: usize) -> AlienView {
        AlienView {
            obj: GameObjectView::fresh(Container::cell(Point { x, y }), alien_symbol()),
            points: ALIEN_POINTS,
        }
    }

    /// The same enemy on the cell `p`.
    pub open spec fn at(self, p: Point) -> AlienView {
        AlienView { obj: self.obj.at(p), ..self }
    }

    /// The same enemy, destroyed.
    pub open spec fn wrecked(self) -> AlienView {
        AlienView { obj: self.obj.wrecked(), ..self }
    }

    /// The enemy is not destroyed and stands on the cell `(x, y)`.
    pub open spec fn alive_at(self, x: int, y: int) -> bool {
        !self.obj.destroyed && self.obj.pos().x == x && self.obj.pos().y == y
    }
}

/// A destructible unit of the formation that is worth points. It does not
/// move by itself: the engine places it.
pub struct SmallAlien {
    pub gobj: GameObject,
    points: usize,
}

impl View for SmallAlien {
    type V = AlienView;

    closed spec fn view(&self) -> AlienView {
        AlienView { obj: self.gobj@, points: self.points }
    }
}

impl SmallAlien {
    pub fn new(x: usize, y: usize) -> (a: Self)
        ensures
            a@ == AlienView::fresh(x, y),
    {
        let container = Container {
            top: Point { x, y },
            bottom: Point { x, y },
            padding_vertical: 0,
            padding_horizontal: 0,
        };
        proof {
            reveal_strlit("\u{237E}");
            assert("\u{237E}"@ =~= alien_symbol());
        }
        let gobj = GameObject::new(container, "\u{237E}");
        Self { gobj, points: ALIEN_POINTS }
    }

    pub fn get_points(&self) -> (p: usize)
        ensures
            p == self@.points,
    {
        self.points
    }

    /// The enemy shoots. Its state stays; the shot's sound is due.
    pub fn fire(&self) -> (cue: Sound)
        ensures
            cue == Sound::Fire,
    {
        Sound::Fire
    }

    /// Destroys the enemy. The impact's sound is due.
    pub fn destroy(&mut self) -> (cue: Sound)
        ensures
            final(self)@ == old(self)@.wrecked(),
            cue == Sound::OnHit,
    {
        self.gobj.destroy();
        Sound::OnHit
    }

    pub fn is_destroyed(&self) -> (d: bool)
        ensures
            d == self@.obj.destroyed,
    {
        self.gobj.is_destroyed()
    }

    pub fn get_pos(&self) -> (p: Point)
        ensures
            p == self@.obj.pos(),
    {
        self.gobj.get_pos()
    }

    pub fn set_pos(&mut self, point: &Point)
        ensures
            final(self)@ == old(self)@.at(*point),
    {
        self.gobj.set_pos(point);
    }

    pub fn get_container(&self) -> (c: Container)
        ensures
            c == self@.obj.container,
    {
        self.gobj.get_container()
    }

    pub fn get_width(&self) -> (w: usize)
        requires
            self@.obj.container.wf(),
        ensures
            w == self@.obj.container.width(),
    {
        self.gobj.get_width()
    }

    pub fn get_symbol(&self) -> (s: &str)
        ensures
            s@ == self@.obj.symbol,
    {
        self.gobj.get_symbol()
    }
}

} // verus!
