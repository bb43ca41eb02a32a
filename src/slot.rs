use crate::context::Context;
use vstd::prelude::*;

verus! {

#[verifier::external_type_specification]
#[verifier::external_body]
pub struct ExRawMutex(parking_lot::RawMutex);

#[verifier::external_type_specification]
#[verifier::external_body]
#[verifier::reject_recursive_types(R)]
#[verifier::reject_recursive_types(T)]
pub struct ExLockMutex<R, T: ?Sized>(parking_lot::lock_api::Mutex<R, T>);

/// The mutex that holds the context while no handle is live.
pub type Slot = parking_lot::Mutex<Option<Context>>;

/// What the slot's mutex holds.
pub uninterp spec fn slot_contents(m: Slot) -> Option<Context>;

/// Relies on `parking_lot::Mutex::new`: the new mutex holds the value given.
#[verifier::external_body]
pub(crate) fn new_slot(v: Option<Context>) -> (m: Slot)
    ensures
        slot_contents(m) == v,
{
    parking_lot::Mutex::new(v)
}

/// Relies on `parking_lot::Mutex::lock`: the guard gives the held value, which
/// is moved out and leaves `None` behind.
#[verifier::external_body]
pub(crate) fn take_slot(m: &mut Slot) -> (r: Option<Context>)
    ensures
        r == slot_contents(*old(m)),
        slot_contents(*final(m)) == None::<Context>,
{
    m.lock().take()
}

/// Relies on `parking_lot::Mutex::lock`: the guard's value is replaced by `v`.
#[verifier::external_body]
pub(crate) fn put_slot(m: &mut Slot, v: Option<Context>)
    ensures
        slot_contents(*final(m)) == v,
{
    *m.lock() = v;
}

} // verus!
