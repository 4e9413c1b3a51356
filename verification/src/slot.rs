//! The slot that holds the latest response: an atomically swappable holder
//! of the `arc_swap` crate, described here by what it holds.

use crate::model::ReceivedResponse;
use arc_swap::ArcSwapOption;
use std::sync::Arc;
use vstd::prelude::*;

verus! {

/// An `arc_swap::ArcSwapOption` of received responses. Verus does not look
/// inside; the contracts below speak of it through [`held`]. The holder's
/// default strategy is a private type of its crate, so the holder cannot be
/// declared to Verus by its own name and is kept behind this struct.
#[verifier::external_body]
pub struct ResponseSlot {
    inner: ArcSwapOption<ReceivedResponse>,
}

/// What the slot holds.
pub uninterp spec fn held(slot: ResponseSlot) -> Option<ReceivedResponse>;

/// `ArcSwapAny::new`: a slot that holds `value`.
#[verifier::external_body]
pub(crate) fn slot_new(value: Option<ReceivedResponse>) -> (slot: ResponseSlot)
    ensures
        held(slot) == value,
{
    ResponseSlot { inner: ArcSwapOption::new(value.map(Arc::new)) }
}

/// `ArcSwapAny::store`: puts `value` into the slot, over what it held. The
/// slot is borrowed exclusively, so nothing else writes in between.
#[verifier::external_body]
pub(crate) fn slot_store(slot: &mut ResponseSlot, value: Option<ReceivedResponse>)
    ensures
        held(*final(slot)) == value,
{
    slot.inner.store(value.map(Arc::new))
}

/// `ArcSwapAny::swap`: puts `value` into the slot and returns what it held.
/// The slot is borrowed exclusively, so nothing else writes in between.
#[verifier::external_body]
pub(crate) fn slot_swap(slot: &mut ResponseSlot, value: Option<ReceivedResponse>) -> (previous:
    Option<ReceivedResponse>)
    ensures
        previous == held(*old(slot)),
        held(*final(slot)) == value,
{
    slot.inner.swap(value.map(Arc::new)).map(|shared| *shared)
}

} // verus!
