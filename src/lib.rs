//! A process-wide application context held behind a single access point.
//!
//! The context (render counters, screen and pointer state, touch records and
//! loaded sound bytes) lives in a [`SharedState`] container. Every access goes
//! through a [`Handle`] obtained from the container; while a handle is live the
//! container holds nothing, so a second access is refused with
//! [`AccessError::ReentrantDeadlock`] instead of aliasing or hanging.
pub mod context;
pub mod events;
pub mod laws;
pub mod shared;
mod slot;

pub use context::{shift_coord, Context, Touch, COORD_MAX, COORD_MIN};
pub use events::{
    helper, load_sound_from_bytes, mouse_motion_event, resize_event, touch_event, TOUCH_OFFSET,
};
pub use shared::{get_context, init_context, release_context, AccessError, Handle, SharedState};
