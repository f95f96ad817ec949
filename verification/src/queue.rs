//! The queue itself.

use crate::item::ItemInfo;
use crate::iter::{FromIndexIterator, IntoIter};
use crate::model::{items_of, stale_len, QueueView};
use crate::tick::{at_or_after, TICK_ID_MAX};
use core::ops::AddAssign;
use std::collections::vec_deque::Iter;
use std::collections::VecDeque;
use tick_id::TickId;
use vstd::prelude::*;
use vstd::std_specs::iter::IteratorSpec;

verus! {

/// Why a push was turned down.
#[derive(Debug)]
pub enum QueueError {
    /// The item was pushed for `encountered`, but the queue takes `expected` next.
    WrongTickId { expected: TickId, encountered: TickId },
}

/// Items in tick order: pushed at the back for the expected tick, taken from
/// the front.
#[derive(Debug)]
pub struct Queue<T> {
    items: VecDeque<ItemInfo<T>>,
    expected_write_id: TickId,
}

impl<T> View for Queue<T> {
    type V = QueueView<T>;

    closed spec fn view(&self) -> QueueView<T> {
        QueueView { entries: self.items@, expected: self.expected_write_id }
    }
}

impl<T> Queue<T> {
    /// Holds of every queue at all times: stored ticks rise by one from entry
    /// to entry, and the expected tick follows the newest entry.
    #[verifier::type_invariant]
    pub open spec fn wf(&self) -> bool {
        self@.wf()
    }
}

impl<T> Default for Queue<T> {
    /// An empty queue that starts at tick zero.
    fn default() -> (queue: Self)
        ensures
            queue@ == QueueView::<T>::empty(TickId(0)),
            queue@.wf(),
    {
        Self { items: VecDeque::new(), expected_write_id: Default::default() }
    }
}

impl<T> Queue<T> {
    /// The stored entries, oldest first, one after the other.
    pub fn iter(&self) -> (entries: Iter<'_, ItemInfo<T>>)
        ensures
            entries.remaining() == self@.entries.as_ref(),
            entries.decrease() is Some,
            entries.initial_value_relation(&entries),
    {
        self.items.iter()
    }

    /// Gives up the queue for its entries, which come out oldest first.
    pub fn into_iter(self) -> (entries: IntoIter<T>)
        ensures
            entries@ == self@.entries,
    {
        IntoIter::new(self.items)
    }
}

impl<T> Queue<T> {
    /// Moves the entries out and leaves none behind. The caller works on them
    /// and puts them back, so that the queue is well-formed at every step in
    /// between.
    fn detach(&mut self) -> (items: VecDeque<ItemInfo<T>>)
        ensures
            items@ == old(self)@.entries,
            final(self)@ == QueueView::<T>::empty(old(self)@.expected),
    {
        let mut items = VecDeque::new();
        core::mem::swap(&mut items, &mut self.items);
        items
    }
}

impl<T: Clone> Queue<T> {
    /// An empty queue whose first item must carry `tick_id`.
    pub fn new(tick_id: TickId) -> (queue: Self)
        ensures
            queue@ == QueueView::<T>::empty(tick_id),
            queue@.wf(),
    {
        Self { items: VecDeque::new(), expected_write_id: tick_id }
    }

    /// Forgets every entry and starts over at `initial_tick_id`.
    pub fn clear(&mut self, initial_tick_id: TickId)
        ensures
            final(self)@ == QueueView::<T>::empty(initial_tick_id),
            final(self)@.wf(),
    {
        let mut items = self.detach();
        items.clear();
        self.expected_write_id = initial_tick_id;
        self.items = items;
    }

    /// Appends `item` if `tick_id` is the expected tick, and turns it down
    /// otherwise, leaving the queue as it was.
    ///
    /// The tick after `tick_id` becomes the expected one, so `tick_id` must
    /// not be the last tick there is.
    pub fn push(&mut self, tick_id: TickId, item: T) -> (outcome: Result<(), QueueError>)
        requires
            tick_id == old(self)@.expected ==> tick_id.0 < TICK_ID_MAX,
        ensures
            final(self)@.wf(),
            match outcome {
                Ok(()) => {
                    &&& tick_id == old(self)@.expected
                    &&& final(self)@ == old(self)@.push(item)
                },
                Err(QueueError::WrongTickId { expected, encountered }) => {
                    &&& tick_id != old(self)@.expected
                    &&& expected == old(self)@.expected
                    &&& encountered == tick_id
                    &&& final(self)@ == old(self)@
                },
            },
    {
        proof {
            use_type_invariant(&*self);
        }
        if self.expected_write_id != tick_id {
            return Err(
                QueueError::WrongTickId { expected: self.expected_write_id, encountered: tick_id },
            );
        }
        self.push_internal(item);
        proof {
            use_type_invariant(&*self);
        }
        Ok(())
    }

    fn push_internal(&mut self, item: T)
        requires
            old(self)@.expected.0 < TICK_ID_MAX,
        ensures
            final(self)@ == old(self)@.push(item),
    {
        proof {
            use_type_invariant(&*self);
        }
        let info = ItemInfo { item, tick_id: self.expected_write_id };
        let mut next = self.expected_write_id;
        next.add_assign(1);
        let mut items = self.detach();
        items.push_back(info);
        self.expected_write_id = next;
        self.items = items;
    }

    /// The entry at position `index`, counted from the front.
    pub fn debug_get(&self, index: usize) -> (entry: Option<&ItemInfo<T>>)
        ensures
            match entry {
                Some(found) => self@.get(index as int) == Some(*found),
                None => self@.get(index as int) is None,
            },
    {
        if index < self.items.len() {
            Some(&self.items[index])
        } else {
            None
        }
    }

    /// Removes the oldest entry and hands it out.
    pub fn pop(&mut self) -> (front: Option<ItemInfo<T>>)
        ensures
            front == old(self)@.front(),
            final(self)@ == old(self)@.drop_front(1),
            final(self)@.expected == old(self)@.expected,
            final(self)@.wf(),
            front matches Some(oldest) ==> forall|i: int|
                0 <= i < old(self)@.entries.len() ==> oldest.tick_id.0 <= (
                #[trigger] old(self)@.entries[i]).tick_id.0,
    {
        proof {
            use_type_invariant(&*self);
        }
        let mut items = self.detach();
        let front = items.pop_front();
        self.items = items;
        assert(self@.entries =~= old(self)@.drop_front(1).entries);
        front
    }

    /// Removes the entries at the front that are older than `tick_id`.
    pub fn discard_up_to(&mut self, tick_id: TickId)
        ensures
            final(self)@ == old(self)@.discard_up_to(tick_id),
            final(self)@.wf(),
            final(self)@.expected == old(self)@.expected,
            old(self)@.entries.len() == 0 ==> final(self)@.entries.len() == 0,
            forall|i: int|
                0 <= i < final(self)@.entries.len() ==> (#[trigger] final(self)@.entries[i]).tick_id.0
                    >= tick_id.0,
            forall|i: int|
                0 <= i < old(self)@.entries.len() && (#[trigger] old(self)@.entries[i]).tick_id.0
                    >= tick_id.0 ==> {
                    let removed = old(self)@.entries.len() - final(self)@.entries.len();
                    &&& removed <= i
                    &&& final(self)@.entries[i - removed] == old(self)@.entries[i]
                },
    {
        proof {
            use_type_invariant(&*self);
        }
        let mut items = self.detach();
        let ghost before = items@;
        let ghost mut removed: nat = 0;
        while items.len() > 0 && !at_or_after(items[0].tick_id, tick_id)
            invariant
                removed <= before.len(),
                items@ == before.skip(removed as int),
                stale_len(before, tick_id) == removed + stale_len(items@, tick_id),
                forall|i: int| 0 <= i < removed ==> (#[trigger] before[i]).tick_id.0 < tick_id.0,
            decreases items.len(),
        {
            items.pop_front();
            proof {
                removed = removed + 1;
            }
        }
        self.items = items;
        assert(self@.entries =~= old(self)@.discard_up_to(tick_id).entries);
    }

    /// Removes the first `count` entries, or all of them where there are fewer.
    pub fn discard_count(&mut self, count: usize)
        ensures
            final(self)@ == old(self)@.drop_front(count as nat),
            final(self)@.wf(),
            final(self)@.expected == old(self)@.expected,
            count >= old(self)@.entries.len() ==> final(self)@.entries.len() == 0,
    {
        proof {
            use_type_invariant(&*self);
        }
        let mut items = self.detach();
        if count >= items.len() {
            items.clear();
        } else {
            let ghost before = items@;
            let mut removed: usize = 0;
            while removed < count
                invariant
                    removed <= count < before.len(),
                    items@ == before.skip(removed as int),
                decreases count - removed,
            {
                items.pop_front();
                removed += 1;
            }
        }
        self.items = items;
        assert(self@.entries =~= old(self)@.drop_front(count as nat).entries);
    }

    /// Removes the first `count` entries, or all of them where there are
    /// fewer, and hands out their items together with the tick of the first.
    /// An empty queue hands out nothing.
    pub fn take(&mut self, count: usize) -> (taken: Option<(TickId, Vec<T>)>)
        ensures
            match taken {
                Some((first, items)) => old(self)@.take(count as nat) == Some((first, items@)),
                None => old(self)@.take(count as nat) is None,
            },
            final(self)@ == old(self)@.drop_front(count as nat),
            final(self)@.expected == old(self)@.expected,
            final(self)@.wf(),
    {
        proof {
            use_type_invariant(&*self);
        }
        let first_tick_id = match self.front_tick_id() {
            Some(tick_id) => tick_id,
            None => {
                assert(self@.entries =~= old(self)@.drop_front(count as nat).entries);
                return None;
            },
        };
        let mut items = self.detach();
        let ghost before = items@;
        let wanted: usize = if count < items.len() {
            count
        } else {
            items.len()
        };
        let mut items_to_take: Vec<T> = Vec::new();
        while items_to_take.len() < wanted
            invariant
                wanted <= before.len(),
                items_to_take@.len() <= wanted,
                items@ == before.skip(items_to_take@.len() as int),
                items_to_take@ == Seq::new(items_to_take@.len(), |i: int| before[i].item),
            decreases wanted - items_to_take.len(),
        {
            if let Some(info) = items.pop_front() {
                items_to_take.push(info.item);
            }
        }
        self.items = items;
        assert(self@.entries =~= old(self)@.drop_front(count as nat).entries);
        assert(items_to_take@ =~= items_of(old(self)@.leading(count as nat)));
        Some((first_tick_id, items_to_take))
    }

    /// The tick of the oldest entry.
    pub fn front_tick_id(&self) -> (tick_id: Option<TickId>)
        ensures
            tick_id == match self@.front() {
                Some(entry) => Some(entry.tick_id),
                None => None,
            },
    {
        if self.items.len() > 0 {
            Some(self.items[0].tick_id)
        } else {
            None
        }
    }

    /// The tick that the next pushed item must carry.
    pub fn expected_write_tick_id(&self) -> (tick_id: TickId)
        ensures
            tick_id == self@.expected,
    {
        self.expected_write_id
    }

    /// The tick of the newest entry.
    pub fn back_tick_id(&self) -> (tick_id: Option<TickId>)
        ensures
            tick_id == match self@.back() {
                Some(entry) => Some(entry.tick_id),
                None => None,
            },
    {
        let len = self.items.len();
        if len > 0 {
            Some(self.items[len - 1].tick_id)
        } else {
            None
        }
    }

    /// The number of stored entries.
    pub fn len(&self) -> (len: usize)
        ensures
            len == self@.entries.len(),
    {
        self.items.len()
    }

    /// Whether no entry is stored.
    pub fn is_empty(&self) -> (empty: bool)
        ensures
            empty == (self@.entries.len() == 0),
    {
        self.items.len() == 0
    }

    /// Clones of the stored items, oldest first, without their ticks.
    pub fn to_vec(&self) -> (items: Vec<T>)
        ensures
            items@.len() == self@.entries.len(),
            forall|i: int|
                0 <= i < items@.len() ==> cloned::<T>(self@.entries[i].item, #[trigger] items@[i]),
    {
        let mut items: Vec<T> = Vec::new();
        let mut index: usize = 0;
        while index < self.items.len()
            invariant
                index <= self.items@.len(),
                items@.len() == index,
                forall|i: int|
                    0 <= i < index ==> cloned::<T>(self.items@[i].item, #[trigger] items@[i]),
            decreases self.items@.len() - index,
        {
            items.push(self.items[index].item.clone());
            index += 1;
        }
        items
    }

    /// Clones of the stored entries from position `start_index` on, one after
    /// the other; none where `start_index` is past the newest entry.
    pub fn iter_index(&self, start_index: usize) -> (entries: FromIndexIterator<'_, T>)
        ensures
            entries.entries() == self@.entries,
            entries.position() == start_index,
    {
        FromIndexIterator::new(&self.items, start_index)
    }
}

} // verus!
