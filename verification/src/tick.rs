//! What the queue relies on of `tick_id::TickId`.
//!
//! `TickId` is a tuple struct around one public `u32`. Verus reads that field,
//! so a tick is known by `tick.0`. The operations of the type that the queue
//! calls are not verified here: their contracts below are taken on trust.

use tick_id::TickId;
use vstd::prelude::*;

verus! {

/// The largest value a tick can have. A queue that expects this tick cannot
/// take another item, since the tick after it does not exist.
pub const TICK_ID_MAX: u32 = u32::MAX;

/// `tick_id::TickId`, declared with its one field, the tick's number.
#[verifier::external_type_specification]
pub struct ExTickId(TickId);

/// `==` and `!=` on `TickId`, which the type derives: two ticks are equal
/// exactly when their numbers are.
pub assume_specification[ <TickId as PartialEq>::eq ](a: &TickId, b: &TickId) -> (equal: bool)
    ensures
        equal == (a.0 == b.0),
;

/// `TickId::add_assign`, which adds `amount` to the tick's number in place.
/// The sum must fit the number's type: the addition is unchecked, and where
/// overflow checks are compiled in it panics on a sum that does not fit.
pub assume_specification[ <TickId as core::ops::AddAssign<u32>>::add_assign ](
    tick: &mut TickId,
    amount: u32,
)
    requires
        old(tick).0 + amount <= u32::MAX,
    ensures
        final(tick).0 == old(tick).0 + amount,
;

/// `TickId::default`, which the type derives: the tick with number zero.
pub assume_specification[ <TickId as Default>::default ]() -> (tick: TickId)
    ensures
        tick.0 == 0,
;

/// `>=` on `TickId`, which the type derives from its one field: ticks are
/// ordered as their numbers are.
#[verifier::external_body]
pub(crate) fn at_or_after(a: TickId, b: TickId) -> (reached: bool)
    ensures
        reached == (a.0 >= b.0),
{
    a >= b
}

} // verus!
