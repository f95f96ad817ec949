//! What holds of the queue across several operations.
//!
//! The laws are stated over [`QueueView`], the value that the contracts of
//! [`Queue`](crate::queue::Queue) speak of: what `push`, `pop`, `take` and the
//! two discards do to a queue is what `push`, `drop_front`, `take` and
//! `discard_up_to` do to its view.

use crate::item::ItemInfo;
use crate::model::{items_of, stale_len, QueueView};
use crate::tick::TICK_ID_MAX;
use tick_id::TickId;
use vstd::prelude::*;

verus! {

impl<T> QueueView<T> {
    /// The value after the items of `items` were pushed one after the other,
    /// each for the tick that was expected at its turn.
    pub open spec fn push_all(self, items: Seq<T>) -> Self
        decreases items.len(),
    {
        if items.len() == 0 {
            self
        } else {
            self.push_all(items.drop_last()).push(items.last())
        }
    }

    /// The entries that `count` pops in a row hand out, in the order in which
    /// they come. A pop from a value without entries hands out nothing.
    pub open spec fn popped(self, count: nat) -> Seq<ItemInfo<T>>
        decreases count,
    {
        if count == 0 {
            Seq::empty()
        } else {
            let later = self.drop_front(1).popped((count - 1) as nat);
            match self.front() {
                Some(entry) => seq![entry] + later,
                None => later,
            }
        }
    }

    /// The value that `count` pops in a row leave behind.
    pub open spec fn after_pops(self, count: nat) -> Self
        decreases count,
    {
        if count == 0 {
            self
        } else {
            self.drop_front(1).after_pops((count - 1) as nat)
        }
    }
}

/// In a continuous queue the ticks of two entries differ by as much as their
/// positions do. So neighbours differ by exactly one, ticks rise strictly
/// from front to back, and no tick is stored twice.
pub proof fn lemma_ticks_follow_positions<T>(view: QueueView<T>, i: int, j: int)
    requires
        view.continuous(),
        0 <= i <= j < view.entries.len(),
    ensures
        view.entries[j].tick_id.0 - view.entries[i].tick_id.0 == j - i,
        j == i + 1 ==> view.entries[j].tick_id.0 == view.entries[i].tick_id.0 + 1,
        i < j ==> view.entries[i].tick_id.0 < view.entries[j].tick_id.0,
{
}

/// A push for the expected tick keeps a well-formed queue well-formed, as
/// long as there is a tick after the expected one.
pub proof fn lemma_push_keeps_wf<T>(view: QueueView<T>, item: T)
    requires
        view.wf(),
        view.expected.0 < TICK_ID_MAX,
    ensures
        view.push(item).wf(),
        view.push(item).entries.len() == view.entries.len() + 1,
        view.push(item).entries.last() == (ItemInfo { item, tick_id: view.expected }),
        view.push(item).expected.0 == view.expected.0 + 1,
{
}

/// Pushes onto a fresh queue store the items in the order of the pushes, the
/// first under the queue's initial tick and each later one under the tick
/// after its predecessor's. The queue stays well-formed throughout, and in
/// the end expects the tick after the last one stored.
pub proof fn lemma_pushes_count_up_from_start<T>(start: TickId, items: Seq<T>)
    requires
        start.0 + items.len() <= TICK_ID_MAX,
    ensures
        QueueView::empty(start).push_all(items).wf(),
        QueueView::empty(start).push_all(items).entries.len() == items.len(),
        QueueView::empty(start).push_all(items).expected.0 == start.0 + items.len(),
        forall|i: int|
            0 <= i < items.len() ==> {
                let entry = #[trigger] QueueView::empty(start).push_all(items).entries[i];
                &&& entry.item == items[i]
                &&& entry.tick_id.0 == start.0 + i
            },
    decreases items.len(),
{
    if items.len() > 0 {
        lemma_pushes_count_up_from_start(start, items.drop_last());
    }
}

/// Dropping entries from the front keeps a well-formed queue well-formed and
/// leaves the expected tick alone, also when the queue runs empty.
pub proof fn lemma_drop_front_keeps_wf<T>(view: QueueView<T>, count: nat)
    requires
        view.wf(),
    ensures
        view.drop_front(count).wf(),
        view.drop_front(count).expected == view.expected,
        count >= view.entries.len() ==> view.drop_front(count).entries.len() == 0,
{
}

/// Pops hand out the entries from front to back: `count` pops in a row give
/// the first `count` entries in their stored order, and leave what dropping
/// `count` entries at once leaves. In a well-formed queue the ticks that come
/// out count up by one from the tick of the front entry.
pub proof fn lemma_pops_drain_front_to_back<T>(view: QueueView<T>, count: nat)
    ensures
        view.popped(count) == view.leading(count),
        view.after_pops(count) == view.drop_front(count),
        view.wf() ==> forall|i: int|
            0 <= i < view.popped(count).len() ==> (#[trigger] view.popped(count)[i]).tick_id.0
                == view.entries[0].tick_id.0 + i,
    decreases count,
{
    if count > 0 {
        lemma_pops_drain_front_to_back(view.drop_front(1), (count - 1) as nat);
    }
    assert(view.popped(count) =~= view.leading(count));
    assert(view.after_pops(count).entries =~= view.drop_front(count).entries);
}

/// Taking `count` entries is popping `count` times: both leave the same
/// queue, and `take` hands out the items of the popped entries in the order
/// of the pops, with the tick of the first of them. It hands out nothing
/// exactly when the queue is empty and every pop came back empty-handed. In a
/// well-formed queue the popped entries carry the tick handed out and the
/// ticks after it, one each.
pub proof fn lemma_take_is_repeated_pop<T>(view: QueueView<T>, count: nat)
    ensures
        view.drop_front(count) == view.after_pops(count),
        view.take(count) is None <==> view.entries.len() == 0,
        match view.take(count) {
            Some((first, items)) => {
                &&& items == items_of(view.popped(count))
                &&& count > 0 ==> first == view.popped(count)[0].tick_id
                &&& view.wf() ==> forall|i: int|
                    0 <= i < view.popped(count).len() ==> (
                    #[trigger] view.popped(count)[i]).tick_id.0 == first.0 + i
            },
            None => view.popped(count).len() == 0,
        },
{
    lemma_pops_drain_front_to_back(view, count);
}

/// In a well-formed queue `discard_up_to` removes exactly the entries that
/// are older than the given tick: every entry that stays is at least as
/// young as the tick, every entry that goes is older, and the entries that
/// stay keep their order.
pub proof fn lemma_discard_up_to_cuts_at_tick<T>(view: QueueView<T>, tick: TickId)
    requires
        view.wf(),
    ensures
        view.discard_up_to(tick).wf(),
        stale_len(view.entries, tick) <= view.entries.len(),
        view.discard_up_to(tick).entries == view.entries.skip(stale_len(view.entries, tick) as int),
        forall|i: int|
            0 <= i < view.entries.len() ==> ((#[trigger] view.entries[i]).tick_id.0 < tick.0 <==> i
                < stale_len(view.entries, tick)),
        forall|i: int|
            0 <= i < view.discard_up_to(tick).entries.len() ==> (
            #[trigger] view.discard_up_to(tick).entries[i]).tick_id.0 >= tick.0,
    decreases view.entries.len(),
{
    if view.entries.len() > 0 && view.entries[0].tick_id.0 < tick.0 {
        let rest = view.drop_front(1);
        lemma_discard_up_to_cuts_at_tick(rest, tick);
        assert(view.discard_up_to(tick).entries =~= rest.discard_up_to(tick).entries);
        assert forall|i: int| 0 <= i < view.entries.len() implies ((
        #[trigger] view.entries[i]).tick_id.0 < tick.0 <==> i < stale_len(view.entries, tick)) by {
            if i > 0 {
                assert(rest.entries[i - 1] == view.entries[i]);
            }
        }
    }
}

/// Discarding up to a tick a second time, or up to an earlier tick
/// afterwards, changes nothing.
pub proof fn lemma_discard_up_to_twice<T>(view: QueueView<T>, tick: TickId, earlier: TickId)
    requires
        view.wf(),
        earlier.0 <= tick.0,
    ensures
        view.discard_up_to(tick).discard_up_to(earlier) == view.discard_up_to(tick),
{
    lemma_discard_up_to_cuts_at_tick(view, tick);
    let kept = view.discard_up_to(tick);
    assert(stale_len(kept.entries, earlier) == 0);
    assert(kept.discard_up_to(earlier).entries =~= kept.entries);
}

} // verus!
