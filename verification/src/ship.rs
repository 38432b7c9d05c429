//! The player's ship.

use vstd::prelude::*;
use crate::container::{Container, Direction, Point};
use crate::gobj::{GameObject, GameObjectView};

verus! {

/// The glyph a ship is drawn with.
pub open spec fn ship_symbol() -> Seq<char> {
    seq!['\u{232C}']
}

/// What a ship is, as a mathematical value.
pub struct ShipView {
    pub obj: GameObjectView,
    pub direction: Direction,
    pub speed: usize,
    pub length: usize,
}

impl ShipView {
    /// The region of a ship whose leading edge is at column `x` of row `y`.
    pub open spec fn footprint(x: int, y: int, length: int) -> Container {
        Container {
            top: Point { x: x as usize, y: y as usize },
            bottom: Point { x: (x + length) as usize, y: y as usize },
            padding_vertical: 0,
            padding_horizontal: 0,
        }
    }

    /// The ship's region is the footprint that its length gives.
    pub open spec fn wf(self) -> bool {
        self.obj.container == Self::footprint(
            self.obj.container.top.x as int,
            self.obj.container.top.y as int,
            self.length as int,
        ) && self.obj.container.top.x + self.length <= usize::MAX
    }

    /// A new ship with its leading edge at `(x, y)`.
    pub open spec fn fresh(x: usize, y: usize, length: usize, speed: usize) -> ShipView {
        ShipView {
            obj: GameObjectView::fresh(
                Self::footprint(x as int, y as int, length as int),
                ship_symbol(),
            ),
            direction: Direction::RIGHT,
            speed,
            length,
        }
    }

    /// The same ship with its leading edge at column `x` of its row.
    pub open spec fn placed(self, x: int) -> ShipView {
        ShipView {
            obj: GameObjectView {
                container: Self::footprint(x, self.obj.container.top.y as int, self.length as int),
                ..self.obj
            },
            ..self
        }
    }

    /// The column of the leading edge after one step in `direction`.
    pub open spec fn stepped_x(self, direction: Direction) -> int {
        match direction {
            Direction::LEFT => self.obj.container.top.x - self.speed,
            Direction::RIGHT => self.obj.container.top.x + self.speed,
            _ => self.obj.container.top.x as int,
        }
    }

    /// The step in `direction` stays on the grid.
    pub open spec fn can_step(self, direction: Direction) -> bool {
        match direction {
            Direction::LEFT => self.obj.container.top.x >= self.speed
                && self.obj.container.top.x - self.speed + self.length <= usize::MAX,
            Direction::RIGHT => self.obj.container.top.x + self.speed + self.length <= usize::MAX,
            _ => true,
        }
    }

    /// The ship after one step in `direction`. Vertical directions leave it
    /// as it is.
    pub open spec fn moved(self, direction: Direction) -> ShipView {
        match direction {
            Direction::LEFT | Direction::RIGHT => self.placed(self.stepped_x(direction)),
            _ => self,
        }
    }
}

/// The player-controlled entity. It moves horizontally and spans `length`
/// columns of one row.
pub struct Ship {
    gobj: GameObject,
    direction: Direction,
    speed: usize,
    length: usize,
}

impl View for Ship {
    type V = ShipView;

    closed spec fn view(&self) -> ShipView {
        ShipView {
            obj: self.gobj@,
            direction: self.direction,
            speed: self.speed,
            length: self.length,
        }
    }
}

impl Ship {
    pub fn new(x: usize, y: usize, length: usize, speed: usize) -> (s: Self)
        requires
            x + length <= usize::MAX,
        ensures
            s@ == ShipView::fresh(x, y, length, speed),
            s@.wf(),
    {
        let container = Container::new(Point { x, y }, Point { x: x + length, y });
        proof {
            reveal_strlit("\u{232C}");
            assert("\u{232C}"@ =~= ship_symbol());
        }
        let gobj = GameObject::new(container, "\u{232C}");
        Self { gobj, direction: Direction::RIGHT, speed, length }
    }

    /// Puts the leading edge at column `x` and rebuilds the region from the
    /// ship's length. The row stays.
    pub fn set_position(&mut self, x: usize)
        requires
            x + old(self)@.length <= usize::MAX,
        ensures
            final(self)@ == old(self)@.placed(x as int),
            final(self)@.wf(),
    {
        let current_pos = self.gobj.get_container();
        let x_end = x + self.length;
        let y = current_pos.top.y;
        let container = Container::new(Point { x, y }, Point { x: x_end, y });
        self.gobj.set_container(&container);
    }

    /// Steps the ship by its speed to the left or right. Up and down are
    /// ignored. No boundary is looked at here: the caller clamps.
    pub fn move_ship(&mut self, direction: Direction)
        requires
            old(self)@.can_step(direction),
        ensures
            final(self)@ == old(self)@.moved(direction),
    {
        match direction {
            Direction::UP | Direction::DOWN => {},
            Direction::LEFT => {
                let new_x = self.gobj.get_pos().x - self.speed;
                self.set_position(new_x);
            },
            Direction::RIGHT => {
                let new_x = self.gobj.get_pos().x + self.speed;
                self.set_position(new_x);
            },
        }
    }

    pub fn get_length(&self) -> (l: usize)
        ensures
            l == self@.length,
    {
        self.length
    }

    pub fn get_speed(&self) -> (s: usize)
        ensures
            s == self@.speed,
    {
        self.speed
    }

    pub fn get_container(&self) -> (c: Container)
        ensures
            c == self@.obj.container,
    {
        self.gobj.get_container()
    }

    pub fn get_pos(&self) -> (p: Point)
        ensures
            p == self@.obj.pos(),
    {
        self.gobj.get_pos()
    }

    pub fn get_width(&self) -> (w: usize)
        requires
            self@.obj.container.wf(),
        ensures
            w == self@.obj.container.width(),
    {
        self.gobj.get_width()
    }

    pub fn get_symbol(&self) -> (s: &str)
        ensures
            s@ == self@.obj.symbol,
    {
        self.gobj.get_symbol()
    }

    pub fn is_destroyed(&self) -> (d: bool)
        ensures
            d == self@.obj.destroyed,
    {
        self.gobj.is_destroyed()
    }

    pub fn destroy(&mut self)
        ensures
            final(self)@ == (ShipView { obj: old(self)@.obj.wrecked(), ..old(self)@ }),
    {
        self.gobj.destroy();
    }
}

} // verus!
