use crate::shared::{access_outcome, handed_back, AccessError, Handle, SharedState};
use vstd::prelude::*;

verus! {

/// At most one handle is live: once `get_context` has handed out a handle, a
/// second `get_context` on the container, before that handle is released, is
/// refused with `ReentrantDeadlock` and leaves the container as it was.
pub proof fn second_access_refused(
    s0: SharedState,
    s1: SharedState,
    s2: SharedState,
    r1: Result<Handle, AccessError>,
    r2: Result<Handle, AccessError>,
)
    requires
        access_outcome(s0, s1, r1),
        r1 is Ok,
        access_outcome(s1, s2, r2),
    ensures
        r2 == Err::<Handle, AccessError>(AccessError::ReentrantDeadlock),
        s2@ == s1@,
{
}

/// Before `init_context` every access is refused with `Uninitialized` and
/// changes nothing.
pub proof fn access_before_init_refused(
    s0: SharedState,
    s1: SharedState,
    r: Result<Handle, AccessError>,
)
    requires
        !s0.is_initialized(),
        access_outcome(s0, s1, r),
    ensures
        r == Err::<Handle, AccessError>(AccessError::Uninitialized),
        s1@ == s0@,
{
}

/// Access is serialized: once a handle is released, the next `get_context`
/// hands out a handle again, to the context as the released handle left it.
pub proof fn access_after_release_granted(
    h: Handle,
    s1: SharedState,
    s2: SharedState,
    r: Result<Handle, AccessError>,
)
    requires
        handed_back(s1, h),
        access_outcome(s1, s2, r),
    ensures
        r is Ok,
        r->Ok_0.ctx() == h.ctx(),
        s2.is_held(),
{
}

} // verus!
