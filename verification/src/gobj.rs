//! The entity that ship, enemy and bullet are built on.

use vstd::prelude::*;
use crate::container::{Container, Point};

verus! {

/// What an entity is, as a mathematical value.
pub struct GameObjectView {
    pub container: Container,
    pub symbol: Seq<char>,
    pub destroyed: bool,
}

impl GameObjectView {
    /// The entity's position: the top corner of its region.
    pub open spec fn pos(self) -> Point {
        self.container.top
    }

    /// The same entity collapsed onto the cell `p`.
    pub open spec fn at(self, p: Point) -> GameObjectView {
        GameObjectView { container: Container { top: p, bottom: p, ..self.container }, ..self }
    }

    /// The same entity with the destroyed latch set.
    pub open spec fn wrecked(self) -> GameObjectView {
        GameObjectView { destroyed: true, ..self }
    }

    /// A fresh entity occupying `container`.
    pub open spec fn fresh(container: Container, symbol: Seq<char>) -> GameObjectView {
        GameObjectView { container, symbol, destroyed: false }
    }
}

/// A positioned, symbol-tagged unit that can be destroyed once.
#[derive(Debug, Clone)]
pub struct GameObject {
    container: Container,
    symbol: String,
    destroyed: bool,
}

impl View for GameObject {
    type V = GameObjectView;

    closed spec fn view(&self) -> GameObjectView {
        GameObjectView {
            container: self.container,
            symbol: self.symbol@,
            destroyed: self.destroyed,
        }
    }
}

impl GameObject {
    pub fn new(container: Container, symbol: &str) -> (g: Self)
        ensures
            g@ == GameObjectView::fresh(container, symbol@),
    {
        Self { container, symbol: symbol.to_owned(), destroyed: false }
    }

    pub fn get_container(&self) -> (c: Container)
        ensures
            c == self@.container,
    {
        self.container
    }

    /// Replaces the region the entity occupies.
    pub fn set_container(&mut self, container: &Container)
        ensures
            final(self)@ == (GameObjectView { container: *container, ..old(self)@ }),
    {
        self.container = *container;
    }

    pub fn get_width(&self) -> (w: usize)
        requires
            self@.container.wf(),
        ensures
            w == self@.container.width(),
    {
        self.container.bottom.x - self.container.top.x
    }

    pub fn get_height(&self) -> (h: usize)
        requires
            self@.container.wf(),
        ensures
            h == self@.container.height(),
    {
        self.container.bottom.y - self.container.top.y
    }

    /// Sets the destroyed latch. Nothing clears it again.
    pub fn destroy(&mut self)
        ensures
            final(self)@ == old(self)@.wrecked(),
    {
        self.destroyed = true;
    }

    pub fn is_destroyed(&self) -> (d: bool)
        ensures
            d == self@.destroyed,
    {
        self.destroyed
    }

    pub fn get_symbol(&self) -> (s: &str)
        ensures
            s@ == self@.symbol,
    {
        self.symbol.as_str()
    }

    /// Moves the entity to `point`. Both corners of its region collapse onto
    /// that cell, so a wider footprint has to be set again by the owner.
    pub fn set_pos(&mut self, point: &Point)
        ensures
            final(self)@ == old(self)@.at(*point),
    {
        self.container.top = *point;
        self.container.bottom = *point;
    }

    pub fn get_pos(&self) -> (p: Point)
        ensures
            p == self@.pos(),
    {
        self.container.top
    }
}

} // verus!
