//! The queue as a mathematical value.

use crate::item::ItemInfo;
use tick_id::TickId;
use vstd::prelude::*;

verus! {

/// What a queue holds: its entries, oldest first, and the tick that the next
/// pushed item must carry.
pub struct QueueView<T> {
    pub entries: Seq<ItemInfo<T>>,
    pub expected: TickId,
}

/// The tick that follows `tick`.
pub open spec fn next_tick(tick: TickId) -> TickId {
    TickId((tick.0 + 1) as u32)
}

/// How many entries at the front of `entries`, one after the other, carry a
/// tick below `tick`.
pub open spec fn stale_len<T>(entries: Seq<ItemInfo<T>>, tick: TickId) -> nat
    decreases entries.len(),
{
    if entries.len() > 0 && entries[0].tick_id.0 < tick.0 {
        1 + stale_len(entries.skip(1), tick)
    } else {
        0
    }
}

/// The items of `entries`, in the same order, without their ticks.
pub open spec fn items_of<T>(entries: Seq<ItemInfo<T>>) -> Seq<T> {
    Seq::new(entries.len(), |i: int| entries[i].item)
}

impl<T> QueueView<T> {
    /// No entries, and `start` as the first tick to come.
    pub open spec fn empty(start: TickId) -> Self {
        QueueView { entries: Seq::empty(), expected: start }
    }

    /// Each entry's tick is the first entry's tick plus the entry's position:
    /// the ticks rise by one from entry to entry.
    pub open spec fn continuous(self) -> bool {
        forall|i: int|
            0 <= i < self.entries.len() ==> (#[trigger] self.entries[i]).tick_id.0
                == self.entries[0].tick_id.0 + i
    }

    /// The entries are continuous, and the expected tick follows the last one.
    pub open spec fn wf(self) -> bool {
        &&& self.continuous()
        &&& self.entries.len() > 0 ==> self.expected.0 == self.entries.last().tick_id.0 + 1
    }

    /// The entry at position `index`, counted from the front.
    pub open spec fn get(self, index: int) -> Option<ItemInfo<T>> {
        if 0 <= index < self.entries.len() {
            Some(self.entries[index])
        } else {
            None
        }
    }

    /// The oldest entry.
    pub open spec fn front(self) -> Option<ItemInfo<T>> {
        self.get(0)
    }

    /// The newest entry.
    pub open spec fn back(self) -> Option<ItemInfo<T>> {
        self.get(self.entries.len() - 1)
    }

    /// The value after `item` was pushed for the expected tick.
    pub open spec fn push(self, item: T) -> Self {
        QueueView {
            entries: self.entries.push(ItemInfo { item, tick_id: self.expected }),
            expected: next_tick(self.expected),
        }
    }

    /// The first `count` entries, or all of them where there are fewer.
    pub open spec fn leading(self, count: nat) -> Seq<ItemInfo<T>> {
        if count <= self.entries.len() {
            self.entries.take(count as int)
        } else {
            self.entries
        }
    }

    /// The value without its first `count` entries, or without any entry where
    /// there are fewer. The expected tick stays.
    pub open spec fn drop_front(self, count: nat) -> Self {
        QueueView {
            entries: if count <= self.entries.len() {
                self.entries.skip(count as int)
            } else {
                Seq::empty()
            },
            expected: self.expected,
        }
    }

    /// The value without the entries at its front that are older than `tick`.
    pub open spec fn discard_up_to(self, tick: TickId) -> Self {
        self.drop_front(stale_len(self.entries, tick))
    }

    /// What taking `count` entries hands out: the tick of the oldest entry and
    /// the items of the first `count` entries, or nothing from an empty value.
    pub open spec fn take(self, count: nat) -> Option<(TickId, Seq<T>)> {
        match self.front() {
            Some(first) => Some((first.tick_id, items_of(self.leading(count)))),
            None => None,
        }
    }
}

} // verus!
