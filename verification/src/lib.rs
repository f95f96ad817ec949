//! A queue of items in which every item belongs to one tick of a simulation.
//!
//! Items enter at the back, in unbroken tick order, and leave at the front.
//! [`Queue`] is the container, [`ItemInfo`] one stored item with its tick, and
//! [`QueueView`] the mathematical value that the contracts of the queue speak
//! of. The module [`laws`] proves what holds across several operations.

pub mod item;
pub mod iter;
pub mod laws;
pub mod model;
pub mod queue;
pub mod tick;

pub use item::ItemInfo;
pub use iter::{FromIndexIterator, IntoIter};
pub use model::QueueView;
pub use queue::{Queue, QueueError};
pub use tick::TICK_ID_MAX;
