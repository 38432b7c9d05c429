//! A bounded first-in, first-out buffer that makes room by dropping its
//! oldest item.

use std::collections::VecDeque;
use vstd::prelude::*;

verus! {

/// What a full buffer keeps when one more item comes: all but the oldest.
pub open spec fn make_room<T>(items: Seq<T>, max_size: int) -> Seq<T> {
    if items.len() >= max_size && items.len() > 0 {
        items.subrange(1, items.len() as int)
    } else {
        items
    }
}

/// A queue that holds at most `max_size` items, and one item where
/// `max_size` is zero.
pub struct SizedVector<T> {
    buffer: VecDeque<T>,
    max_size: usize,
}

impl<T> View for SizedVector<T> {
    type V = Seq<T>;

    closed spec fn view(&self) -> Seq<T> {
        self.buffer@
    }
}

impl<T> SizedVector<T> {
    /// The bound the buffer was made with.
    pub closed spec fn max_size(&self) -> usize {
        self.max_size
    }

    /// The buffer holds no more than its bound allows.
    pub open spec fn wf(&self) -> bool {
        self@.len() <= self.max_size() || self@.len() <= 1
    }

    pub fn new(max_size: usize) -> (v: Self)
        ensures
            v@ == Seq::<T>::empty(),
            v.max_size() == max_size,
            v.wf(),
    {
        SizedVector { buffer: VecDeque::with_capacity(max_size), max_size }
    }

    /// Adds `item` at the back. A full buffer drops its oldest item first.
    pub fn push(&mut self, item: T)
        ensures
            final(self)@ == make_room(old(self)@, old(self).max_size() as int).push(item),
            final(self).max_size() == old(self).max_size(),
            old(self).wf() ==> final(self).wf(),
    {
        if self.buffer.len() >= self.max_size {
            let _ = self.buffer.pop_front();
        }
        self.buffer.push_back(item);
    }

    /// Takes the oldest item, if there is one.
    pub fn pop(&mut self) -> (item: Option<T>)
        ensures
            old(self)@.len() == 0 ==> item is None && final(self)@ == old(self)@,
            old(self)@.len() > 0 ==> item == Some(old(self)@[0]) && final(self)@ == old(
                self,
            )@.subrange(1, old(self)@.len() as int),
            final(self).max_size() == old(self).max_size(),
            old(self).wf() ==> final(self).wf(),
    {
        self.buffer.pop_front()
    }

    pub fn clear(&mut self)
        ensures
            final(self)@ == Seq::<T>::empty(),
            final(self).max_size() == old(self).max_size(),
            final(self).wf(),
    {
        self.buffer.clear();
    }

    pub fn len(&self) -> (n: usize)
        ensures
            n == self@.len(),
    {
        self.buffer.len()
    }

    pub fn is_empty(&self) -> (empty: bool)
        ensures
            empty == (self@.len() == 0),
    {
        self.buffer.len() == 0
    }

    /// The item at place `i`, the oldest being at place zero.
    pub fn get(&self, i: usize) -> (item: &T)
        requires
            i < self@.len(),
        ensures
            *item == self@[i as int],
    {
        &self.buffer[i]
    }

    /// A walk over the items, oldest first, that leaves them in the buffer.
    pub fn iter<'a>(&'a self) -> (walk: SizedVectorIterator<'a, T>)
        ensures
            walk.items() == self@,
            walk.position() == 0,
    {
        SizedVectorIterator { inner: self, next: 0 }
    }

    /// A walk over the items, oldest first, that takes them with it.
    pub fn into_iter(self) -> (walk: IntoSizedVectorIterator<T>)
        ensures
            walk@ == self@,
    {
        IntoSizedVectorIterator { inner: self.buffer }
    }

    /// Hands out the items, oldest first.
    pub fn into_vec(self) -> (items: Vec<T>)
        ensures
            items@ == self@,
    {
        let mut buffer = self.buffer;
        let ghost all = buffer@;
        let mut items: Vec<T> = Vec::new();
        loop
            invariant
                items@ + buffer@ == all,
            ensures
                buffer@.len() == 0,
            decreases buffer@.len(),
        {
            match buffer.pop_front() {
                Some(item) => {
                    items.push(item);
                },
                None => {
                    break ;
                },
            }
        }
        items
    }
}

/// A walk over a buffer's items by reference.
pub struct SizedVectorIterator<'a, T> {
    inner: &'a SizedVector<T>,
    next: usize,
}

impl<'a, T> SizedVectorIterator<'a, T> {
    /// The items of the buffer that is walked over.
    pub closed spec fn items(&self) -> Seq<T> {
        self.inner@
    }

    /// The number of items that the walk has passed.
    pub closed spec fn position(&self) -> int {
        self.next as int
    }

    /// The next item, until the walk has passed them all.
    pub fn next(&mut self) -> (item: Option<&'a T>)
        ensures
            final(self).items() == old(self).items(),
            old(self).position() < old(self).items().len() ==> {
                &&& final(self).position() == old(self).position() + 1
                &&& item matches Some(x)
                &&& *x == old(self).items()[old(self).position()]
            },
            old(self).position() >= old(self).items().len() ==> {
                &&& final(self).position() == old(self).position()
                &&& item is None
            },
    {
        if self.next < self.inner.len() {
            let item = self.inner.get(self.next);
            self.next += 1;
            Some(item)
        } else {
            None
        }
    }
}

/// A walk over a buffer's items that owns them.
pub struct IntoSizedVectorIterator<T> {
    inner: VecDeque<T>,
}

impl<T> View for IntoSizedVectorIterator<T> {
    type V = Seq<T>;

    /// The items still to come, the next one first.
    closed spec fn view(&self) -> Seq<T> {
        self.inner@
    }
}

impl<T> IntoSizedVectorIterator<T> {
    /// The next item, until none is left.
    pub fn next(&mut self) -> (item: Option<T>)
        ensures
            old(self)@.len() == 0 ==> item is None && final(self)@ == old(self)@,
            old(self)@.len() > 0 ==> item == Some(old(self)@[0]) && final(self)@ == old(
                self,
            )@.subrange(1, old(self)@.len() as int),
    {
        self.inner.pop_front()
    }
}

} // verus!
