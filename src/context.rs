use vstd::prelude::*;

verus! {

/// The largest coordinate value; offsets that would pass it stop there.
pub const COORD_MAX: i64 = 0x7fff_ffff_ffff_ffff;

/// The smallest coordinate value.
pub const COORD_MIN: i64 = -0x8000_0000_0000_0000;

/// `a + d`, held within the range of an `i64` coordinate.
pub open spec fn shifted(a: i64, d: int) -> i64 {
    if a + d > COORD_MAX {
        COORD_MAX
    } else if a + d < COORD_MIN {
        COORD_MIN
    } else {
        (a + d) as i64
    }
}

/// Adds a non-negative offset to a coordinate, stopping at the largest value.
pub fn shift_coord(a: i64, d: i64) -> (r: i64)
    requires
        0 <= d,
    ensures
        r == shifted(a, d as int),
{
    if a > COORD_MAX - d {
        COORD_MAX
    } else {
        a + d
    }
}

/// One recorded touch event; coordinates are whole device pixels.
#[derive(Clone, Copy, Debug, PartialEq, Eq, Structural)]
pub struct Touch {
    pub is_touch_started: bool,
    pub x: i64,
    pub y: i64,
}

/// The application context: render counters, input state and sound bytes.
#[derive(Debug)]
pub struct Context {
    /// Advanced by every render flush, together with `render_counter_b`.
    pub render_counter_a: u64,
    /// Advanced by every render flush, together with `render_counter_a`.
    pub render_counter_b: u64,
    pub screen_width: i64,
    pub screen_height: i64,
    pub mouse_x: i64,
    pub mouse_y: i64,
    /// Touch records in the order the events came.
    pub touches: Vec<Touch>,
    /// When set, a touch event also moves the mouse pointer.
    pub simulate_mouse_with_touch: bool,
    /// Loaded sound data; only ever appended to.
    pub sounds: Vec<u8>,
}

impl Context {
    /// The state of a context that nothing has touched yet.
    pub open spec fn is_fresh(&self) -> bool {
        &&& self.render_counter_a == 0
        &&& self.render_counter_b == 0
        &&& self.screen_width == 0
        &&& self.screen_height == 0
        &&& self.mouse_x == 0
        &&& self.mouse_y == 0
        &&& self.touches@ == Seq::<Touch>::empty()
        &&& self.simulate_mouse_with_touch
        &&& self.sounds@ == Seq::<u8>::empty()
    }

    /// Both render counters hold the same value.
    pub open spec fn counters_paired(&self) -> bool {
        self.render_counter_a == self.render_counter_b
    }

    /// A flush can advance both counters without overflow.
    pub open spec fn can_flush(&self) -> bool {
        self.render_counter_a < u64::MAX && self.render_counter_b < u64::MAX
    }

    /// `self` and `o` agree on everything but the render counters.
    pub open spec fn same_but_counters(&self, o: &Context) -> bool {
        &&& self.screen_width == o.screen_width
        &&& self.screen_height == o.screen_height
        &&& self.mouse_x == o.mouse_x
        &&& self.mouse_y == o.mouse_y
        &&& self.touches@ == o.touches@
        &&& self.simulate_mouse_with_touch == o.simulate_mouse_with_touch
        &&& self.sounds@ == o.sounds@
    }

    /// A fresh context.
    pub fn new() -> (c: Context)
        ensures
            c.is_fresh(),
    {
        Context {
            render_counter_a: 0,
            render_counter_b: 0,
            screen_width: 0,
            screen_height: 0,
            mouse_x: 0,
            mouse_y: 0,
            touches: Vec::new(),
            simulate_mouse_with_touch: true,
            sounds: Vec::new(),
        }
    }

    /// Runs the render passes: both counters advance by one.
    pub fn flush(&mut self)
        requires
            old(self).can_flush(),
        ensures
            final(self).render_counter_a == old(self).render_counter_a + 1,
            final(self).render_counter_b == old(self).render_counter_b + 1,
            final(self).same_but_counters(old(self)),
            old(self).counters_paired() ==> final(self).counters_paired(),
    {
        self.perform_render_passes();
    }

    pub(crate) fn perform_render_passes(&mut self)
        requires
            old(self).can_flush(),
        ensures
            final(self).render_counter_a == old(self).render_counter_a + 1,
            final(self).render_counter_b == old(self).render_counter_b + 1,
            final(self).same_but_counters(old(self)),
    {
        self.render_counter_a = self.render_counter_a + 1;
        self.render_counter_b = self.render_counter_b + 1;
    }
}

impl Default for Context {
    fn default() -> (c: Context)
        ensures
            c.is_fresh(),
    {
        Context::new()
    }
}

} // verus!
