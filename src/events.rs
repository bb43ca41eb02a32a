use crate::context::{shift_coord, shifted, Context, Touch};
use crate::shared::{get_context, release_context, AccessError, SharedState};
use vstd::prelude::*;

verus! {

/// The error an access to `s` meets when the context cannot be handed out.
pub open spec fn refusal(s: SharedState) -> Result<(), AccessError> {
    if !s.is_initialized() {
        Err(AccessError::Uninitialized)
    } else {
        Err(AccessError::ReentrantDeadlock)
    }
}

/// How far a touch record is shifted from the raw one on each axis.
pub const TOUCH_OFFSET: i64 = 100;

/// `b` is `a` with the screen size set to `width` by `height`.
pub open spec fn resized(a: Context, b: Context, width: i64, height: i64) -> bool {
    &&& b.render_counter_a == a.render_counter_a
    &&& b.render_counter_b == a.render_counter_b
    &&& b.screen_width == width
    &&& b.screen_height == height
    &&& b.mouse_x == a.mouse_x
    &&& b.mouse_y == a.mouse_y
    &&& b.touches@ == a.touches@
    &&& b.simulate_mouse_with_touch == a.simulate_mouse_with_touch
    &&& b.sounds@ == a.sounds@
}

/// `b` is `a` with the pointer moved to `(x, y)`.
pub open spec fn moved(a: Context, b: Context, x: i64, y: i64) -> bool {
    &&& b.render_counter_a == a.render_counter_a
    &&& b.render_counter_b == a.render_counter_b
    &&& b.screen_width == a.screen_width
    &&& b.screen_height == a.screen_height
    &&& b.mouse_x == x
    &&& b.mouse_y == y
    &&& b.touches@ == a.touches@
    &&& b.simulate_mouse_with_touch == a.simulate_mouse_with_touch
    &&& b.sounds@ == a.sounds@
}

/// The two records a touch at `(x, y)` leaves: the raw one, then one shifted
/// by the touch offset on both axes.
pub open spec fn touch_records(started: bool, x: i64, y: i64) -> Seq<Touch> {
    seq![
        Touch { is_touch_started: started, x, y },
        Touch {
            is_touch_started: started,
            x: shifted(x, TOUCH_OFFSET as int),
            y: shifted(y, TOUCH_OFFSET as int),
        },
    ]
}

/// `b` is `a` after a touch at `(x, y)`: two records appended, and the
/// pointer moved there when touches stand in for the mouse.
pub open spec fn touched(a: Context, b: Context, started: bool, x: i64, y: i64) -> bool {
    &&& b.render_counter_a == a.render_counter_a
    &&& b.render_counter_b == a.render_counter_b
    &&& b.screen_width == a.screen_width
    &&& b.screen_height == a.screen_height
    &&& b.mouse_x == (if a.simulate_mouse_with_touch { x } else { a.mouse_x })
    &&& b.mouse_y == (if a.simulate_mouse_with_touch { y } else { a.mouse_y })
    &&& b.touches@ == a.touches@ + touch_records(started, x, y)
    &&& b.simulate_mouse_with_touch == a.simulate_mouse_with_touch
    &&& b.sounds@ == a.sounds@
}

/// `b` is `a` after loading `data`: the bytes appended twice, and the pointer's
/// x coordinate advanced by one before each append.
pub open spec fn sound_loaded(a: Context, b: Context, data: Seq<u8>) -> bool {
    &&& b.render_counter_a == a.render_counter_a
    &&& b.render_counter_b == a.render_counter_b
    &&& b.screen_width == a.screen_width
    &&& b.screen_height == a.screen_height
    &&& b.mouse_x == shifted(shifted(a.mouse_x, 1), 1)
    &&& b.mouse_y == a.mouse_y
    &&& b.touches@ == a.touches@
    &&& b.simulate_mouse_with_touch == a.simulate_mouse_with_touch
    &&& b.sounds@ == a.sounds@ + data + data
}

/// Records a new screen size.
pub fn resize_event(state: &mut SharedState, width: i64, height: i64) -> (r: Result<(), AccessError>)
    ensures
        !old(state).is_idle() ==> r == refusal(*old(state)) && final(state)@ == old(state)@,
        old(state).is_idle() ==> r is Ok && final(state).is_idle()
            && resized(old(state).context(), final(state).context(), width, height),
{
    let mut h = match get_context(state) {
        Ok(h) => h,
        Err(e) => return Err(e),
    };
    h.context.screen_height = height;
    h.context.screen_width = width;
    release_context(state, h);
    Ok(())
}

/// Records a new pointer position; each coordinate is written under an access
/// of its own.
pub fn mouse_motion_event(state: &mut SharedState, x: i64, y: i64) -> (r: Result<(), AccessError>)
    ensures
        !old(state).is_idle() ==> r == refusal(*old(state)) && final(state)@ == old(state)@,
        old(state).is_idle() ==> r is Ok && final(state).is_idle()
            && moved(old(state).context(), final(state).context(), x, y),
{
    let mut h = match get_context(state) {
        Ok(h) => h,
        Err(e) => return Err(e),
    };
    h.context.mouse_x = x;
    release_context(state, h);
    let mut h = match get_context(state) {
        Ok(h) => h,
        Err(e) => return Err(e),
    };
    h.context.mouse_y = y;
    release_context(state, h);
    Ok(())
}

/// Records a touch at `(x, y)`. The handle that appends the raw record is
/// released before the pointer is moved, which takes an access of its own;
/// a second record, shifted by the touch offset, is appended after that.
pub fn touch_event(state: &mut SharedState, is_touch_started: bool, x: i64, y: i64) -> (r: Result<(), AccessError>)
    ensures
        !old(state).is_idle() ==> r == refusal(*old(state)) && final(state)@ == old(state)@,
        old(state).is_idle() ==> r is Ok && final(state).is_idle()
            && touched(old(state).context(), final(state).context(), is_touch_started, x, y),
{
    let ghost before = state.context();
    let mut h = match get_context(state) {
        Ok(h) => h,
        Err(e) => return Err(e),
    };
    h.context.touches.push(Touch { is_touch_started, x, y });
    let simulate_mouse_with_touch = h.context.simulate_mouse_with_touch;
    release_context(state, h);
    if simulate_mouse_with_touch {
        if let Err(e) = mouse_motion_event(state, x, y) {
            return Err(e);
        }
    }
    let mut h = match get_context(state) {
        Ok(h) => h,
        Err(e) => return Err(e),
    };
    let shifted_x = shift_coord(x, TOUCH_OFFSET);
    let shifted_y = shift_coord(y, TOUCH_OFFSET);
    h.context.touches.push(Touch { is_touch_started, x: shifted_x, y: shifted_y });
    release_context(state, h);
    assert(state.context().touches@ == before.touches@ + touch_records(is_touch_started, x, y));
    Ok(())
}

/// Appends `data` to `v`.
fn append_bytes(v: &mut Vec<u8>, data: &[u8])
    ensures
        final(v)@ == old(v)@ + data@,
{
    let mut i: usize = 0;
    while i < data.len()
        invariant
            i <= data@.len(),
            v@ == old(v)@ + data@.subrange(0, i as int),
        decreases data@.len() - i,
    {
        v.push(data[i]);
        i = i + 1;
    }
    assert(data@.subrange(0, data@.len() as int) == data@);
}

/// Loads sound bytes: under one access, the pointer's x coordinate advances by
/// one and `data` is appended, twice over.
pub fn load_sound_from_bytes(state: &mut SharedState, data: &[u8]) -> (r: Result<(), AccessError>)
    ensures
        !old(state).is_idle() ==> r == refusal(*old(state)) && final(state)@ == old(state)@,
        old(state).is_idle() ==> r is Ok && final(state).is_idle()
            && sound_loaded(old(state).context(), final(state).context(), data@),
{
    let mut h = match get_context(state) {
        Ok(h) => h,
        Err(e) => return Err(e),
    };
    h.context.mouse_x = shift_coord(h.context.mouse_x, 1);
    append_bytes(&mut h.context.sounds, data);
    h.context.mouse_x = shift_coord(h.context.mouse_x, 1);
    append_bytes(&mut h.context.sounds, data);
    release_context(state, h);
    Ok(())
}

/// Advances the second render counter under an access of its own. Called
/// while another handle is live, it is refused as a re-entrant deadlock.
pub fn helper(state: &mut SharedState) -> (r: Result<(), AccessError>)
    requires
        old(state).is_idle() ==> old(state).context().render_counter_b < u64::MAX,
    ensures
        !old(state).is_idle() ==> r == refusal(*old(state)) && final(state)@ == old(state)@,
        old(state).is_idle() ==> r is Ok && final(state).is_idle()
            && final(state).context().render_counter_b == old(state).context().render_counter_b + 1
            && final(state).context().render_counter_a == old(state).context().render_counter_a
            && final(state).context().same_but_counters(&old(state).context()),
{
    let mut h = match get_context(state) {
        Ok(h) => h,
        Err(e) => return Err(e),
    };
    h.advance_counter_b();
    release_context(state, h);
    Ok(())
}

} // verus!
