//! One stored item together with the tick it belongs to.

use tick_id::TickId;
use vstd::prelude::*;

verus! {

/// An item and the tick it was pushed for.
#[derive(Debug, PartialEq, Eq)]
pub struct ItemInfo<T> {
    pub item: T,
    pub tick_id: TickId,
}

impl<T: Clone> Clone for ItemInfo<T> {
    /// The copy carries the same tick and a clone of the item.
    fn clone(&self) -> (copy: Self)
        ensures
            copy.tick_id == self.tick_id,
            cloned::<T>(self.item, copy.item),
    {
        ItemInfo { item: self.item.clone(), tick_id: self.tick_id }
    }
}

} // verus!
