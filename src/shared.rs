use crate::context::Context;
use crate::slot::{new_slot, put_slot, slot_contents, take_slot, Slot};
use vstd::prelude::*;

verus! {

/// Why an access to the shared context was refused.
#[derive(Clone, Copy, Debug, PartialEq, Eq, Structural)]
pub enum AccessError {
    /// The context was accessed before `init_context`.
    Uninitialized,
    /// `init_context` was called a second time.
    AlreadyInitialized,
    /// A handle is already live: waiting for it would never end, since the
    /// lock is not re-entrant.
    ReentrantDeadlock,
}

/// The container that owns the one context and mediates every access to it.
///
/// While no handle is live the context sits in the mutex; `get_context` moves
/// it into the handle it returns and `release_context` puts it back, so at
/// most one handle can reach the context at any time.
pub struct SharedState {
    initialized: bool,
    slot: Slot,
}

/// A live, exclusive view of the context, obtained from `get_context` and
/// given back with `release_context`.
#[derive(Debug)]
pub struct Handle {
    pub(crate) context: Context,
}

impl View for SharedState {
    /// Whether `init_context` has run, and what the mutex holds.
    type V = (bool, Option<Context>);

    closed spec fn view(&self) -> (bool, Option<Context>) {
        (self.initialized, slot_contents(self.slot))
    }
}

impl SharedState {
    /// `init_context` has run.
    pub open spec fn is_initialized(&self) -> bool {
        self@.0
    }

    /// A handle to the context is live.
    pub open spec fn is_held(&self) -> bool {
        self@.0 && self@.1 is None
    }

    /// The context as it stands while no handle is live.
    pub open spec fn context(&self) -> Context {
        self@.1->Some_0
    }

    /// The context can be handed out now.
    pub open spec fn is_idle(&self) -> bool {
        self.is_initialized() && !self.is_held()
    }

    /// A container before `init_context`.
    pub fn new() -> (s: SharedState)
        ensures
            !s.is_initialized(),
    {
        SharedState { initialized: false, slot: new_slot(None) }
    }

    /// Whether a handle to the context is live.
    pub fn handle_is_live(&mut self) -> (r: bool)
        ensures
            r == old(self).is_held(),
            final(self)@ == old(self)@,
    {
        if !self.initialized {
            return false;
        }
        let c = take_slot(&mut self.slot);
        let live = c.is_none();
        put_slot(&mut self.slot, c);
        live
    }
}

impl Handle {
    /// The context this handle gives access to.
    pub open(crate) spec fn ctx(&self) -> Context {
        self.context
    }

    /// Reads the context.
    pub fn context(&self) -> (r: &Context)
        ensures
            *r == self.ctx(),
    {
        &self.context
    }

    /// Runs the render passes of the context: both counters advance by one.
    pub fn flush(&mut self)
        requires
            old(self).ctx().can_flush(),
        ensures
            final(self).ctx().render_counter_a == old(self).ctx().render_counter_a + 1,
            final(self).ctx().render_counter_b == old(self).ctx().render_counter_b + 1,
            final(self).ctx().same_but_counters(&old(self).ctx()),
            old(self).ctx().counters_paired() ==> final(self).ctx().counters_paired(),
    {
        self.context.flush();
    }

    /// Advances the first render counter alone.
    pub fn advance_counter_a(&mut self)
        requires
            old(self).ctx().render_counter_a < u64::MAX,
        ensures
            final(self).ctx().render_counter_a == old(self).ctx().render_counter_a + 1,
            final(self).ctx().render_counter_b == old(self).ctx().render_counter_b,
            final(self).ctx().same_but_counters(&old(self).ctx()),
    {
        self.context.render_counter_a = self.context.render_counter_a + 1;
    }

    /// Advances the second render counter alone.
    pub fn advance_counter_b(&mut self)
        requires
            old(self).ctx().render_counter_b < u64::MAX,
        ensures
            final(self).ctx().render_counter_a == old(self).ctx().render_counter_a,
            final(self).ctx().render_counter_b == old(self).ctx().render_counter_b + 1,
            final(self).ctx().same_but_counters(&old(self).ctx()),
    {
        self.context.render_counter_b = self.context.render_counter_b + 1;
    }
}

/// Creates the context and stores it in the container.
pub fn init_context(state: &mut SharedState) -> (r: Result<(), AccessError>)
    ensures
        old(state).is_initialized() ==> r == Err::<(), AccessError>(AccessError::AlreadyInitialized)
            && final(state)@ == old(state)@,
        !old(state).is_initialized() ==> r is Ok && final(state).is_idle()
            && final(state).context().is_fresh(),
{
    if state.initialized {
        return Err(AccessError::AlreadyInitialized);
    }
    put_slot(&mut state.slot, Some(Context::new()));
    state.initialized = true;
    Ok(())
}

/// What `get_context` does: before `init_context` it refuses with
/// `Uninitialized`, while a handle is live with `ReentrantDeadlock`, in both
/// cases leaving the container as it was; otherwise it hands out a handle to
/// the context and the container counts as held.
pub open spec fn access_outcome(
    before: SharedState,
    after: SharedState,
    r: Result<Handle, AccessError>,
) -> bool {
    &&& !before.is_initialized() ==> r == Err::<Handle, AccessError>(AccessError::Uninitialized)
    &&& before.is_held() ==> r == Err::<Handle, AccessError>(AccessError::ReentrantDeadlock)
    &&& r is Err ==> after@ == before@
    &&& before.is_idle() ==> r is Ok && after.is_initialized() && after.is_held() && r->Ok_0.ctx()
        == before.context()
}

/// Hands out the context: the container stays empty until the handle is
/// released.
pub fn get_context(state: &mut SharedState) -> (r: Result<Handle, AccessError>)
    ensures
        access_outcome(*old(state), *final(state), r),
{
    if !state.initialized {
        return Err(AccessError::Uninitialized);
    }
    let c = take_slot(&mut state.slot);
    match c {
        Some(context) => Ok(Handle { context }),
        None => Err(AccessError::ReentrantDeadlock),
    }
}

/// What `release_context` leaves: no handle is live, and the container holds
/// the context as the handle left it.
pub open spec fn handed_back(after: SharedState, handle: Handle) -> bool {
    after.is_idle() && after.context() == handle.ctx()
}

/// Gives the context back to the container, ending the handle.
pub fn release_context(state: &mut SharedState, handle: Handle)
    requires
        old(state).is_held(),
    ensures
        handed_back(*final(state), handle),
{
    put_slot(&mut state.slot, Some(handle.context));
}

} // verus!
