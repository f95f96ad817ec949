//! Walks over the entries of a queue.

use crate::item::ItemInfo;
use std::collections::VecDeque;
use vstd::prelude::*;

verus! {

/// Walks over borrowed entries from a chosen position towards the back and
/// hands out a clone of each.
pub struct FromIndexIterator<'a, T> {
    deque: &'a VecDeque<ItemInfo<T>>,
    current_index: usize,
}

impl<'a, T> FromIndexIterator<'a, T> {
    /// The entries that are walked over, oldest first.
    pub closed spec fn entries(&self) -> Seq<ItemInfo<T>> {
        self.deque@
    }

    /// The position of the entry that comes next.
    pub closed spec fn position(&self) -> nat {
        self.current_index as nat
    }

    /// A walk over `deque` that begins at position `start_index`.
    pub fn new(deque: &'a VecDeque<ItemInfo<T>>, start_index: usize) -> (walk: Self)
        ensures
            walk.entries() == deque@,
            walk.position() == start_index,
    {
        Self { deque, current_index: start_index }
    }
}

impl<T: Clone> FromIndexIterator<'_, T> {
    /// A clone of the entry at the current position, after which the walk
    /// stands one position further; nothing once the position is past the
    /// last entry, and the walk stays where it is.
    pub fn next(&mut self) -> (entry: Option<ItemInfo<T>>)
        ensures
            final(self).entries() == old(self).entries(),
            match entry {
                Some(copy) => {
                    &&& old(self).position() < old(self).entries().len()
                    &&& copy.tick_id == old(self).entries()[old(self).position() as int].tick_id
                    &&& cloned::<T>(
                        old(self).entries()[old(self).position() as int].item,
                        copy.item,
                    )
                    &&& final(self).position() == old(self).position() + 1
                },
                None => {
                    &&& old(self).position() >= old(self).entries().len()
                    &&& final(self).position() == old(self).position()
                },
            },
    {
        if self.current_index < self.deque.len() {
            let item = &self.deque[self.current_index];
            self.current_index += 1;
            Some(item.clone())
        } else {
            None
        }
    }
}

/// Owns the entries of a queue and hands them out one by one, oldest first.
pub struct IntoIter<T> {
    items: VecDeque<ItemInfo<T>>,
}

impl<T> View for IntoIter<T> {
    type V = Seq<ItemInfo<T>>;

    /// The entries that are still to come, oldest first.
    closed spec fn view(&self) -> Seq<ItemInfo<T>> {
        self.items@
    }
}

impl<T> IntoIter<T> {
    /// A walk that hands out `items` from front to back.
    pub(crate) fn new(items: VecDeque<ItemInfo<T>>) -> (walk: Self)
        ensures
            walk@ == items@,
    {
        Self { items }
    }

    /// The oldest entry that is left, which the walk then no longer holds;
    /// nothing once all entries were handed out.
    pub fn next(&mut self) -> (entry: Option<ItemInfo<T>>)
        ensures
            match entry {
                Some(oldest) => {
                    &&& old(self)@.len() > 0
                    &&& oldest == old(self)@[0]
                    &&& final(self)@ == old(self)@.skip(1)
                },
                None => {
                    &&& old(self)@.len() == 0
                    &&& final(self)@ == old(self)@
                },
            },
    {
        self.items.pop_front()
    }
}

} // verus!
