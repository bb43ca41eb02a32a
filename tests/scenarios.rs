use shared_context::{
    get_context, helper, init_context, load_sound_from_bytes, mouse_motion_event,
    release_context, resize_event, shift_coord, touch_event, AccessError, Context, SharedState,
    Touch, COORD_MAX,
};

fn ready() -> SharedState {
    let mut state = SharedState::new();
    init_context(&mut state).unwrap();
    state
}

fn snapshot<T>(state: &mut SharedState, read: impl Fn(&Context) -> T) -> T {
    let h = get_context(state).unwrap();
    let v = read(h.context());
    release_context(state, h);
    v
}

#[test]
fn fresh_context_defaults() {
    let c = Context::new();
    assert_eq!(c.render_counter_a, 0);
    assert_eq!(c.render_counter_b, 0);
    assert!(c.simulate_mouse_with_touch);
    assert!(c.touches.is_empty());
    assert!(c.sounds.is_empty());
    let d = Context::default();
    assert!(d.simulate_mouse_with_touch);
}

#[test]
fn access_before_init_is_uninitialized() {
    let mut state = SharedState::new();
    assert_eq!(get_context(&mut state).err(), Some(AccessError::Uninitialized));
    assert_eq!(resize_event(&mut state, 1, 2), Err(AccessError::Uninitialized));
    assert_eq!(mouse_motion_event(&mut state, 1, 2), Err(AccessError::Uninitialized));
    assert_eq!(touch_event(&mut state, true, 1, 2), Err(AccessError::Uninitialized));
    assert_eq!(load_sound_from_bytes(&mut state, &[1]), Err(AccessError::Uninitialized));
    assert_eq!(helper(&mut state), Err(AccessError::Uninitialized));
}

#[test]
fn second_init_is_refused() {
    let mut state = ready();
    resize_event(&mut state, 5, 6).unwrap();
    assert_eq!(init_context(&mut state), Err(AccessError::AlreadyInitialized));
    assert_eq!(snapshot(&mut state, |c| c.screen_width), 5);
}

#[test]
fn reentrant_access_is_reported() {
    let mut state = ready();
    let mut h = get_context(&mut state).unwrap();
    h.flush();
    assert!(state.handle_is_live());
    assert_eq!(get_context(&mut state).err(), Some(AccessError::ReentrantDeadlock));
    assert_eq!(helper(&mut state), Err(AccessError::ReentrantDeadlock));
    assert_eq!(resize_event(&mut state, 1, 2), Err(AccessError::ReentrantDeadlock));
    assert_eq!(touch_event(&mut state, true, 1, 2), Err(AccessError::ReentrantDeadlock));
    assert_eq!(load_sound_from_bytes(&mut state, &[9]), Err(AccessError::ReentrantDeadlock));
    release_context(&mut state, h);
    assert!(!state.handle_is_live());
    helper(&mut state).unwrap();
    assert_eq!(snapshot(&mut state, |c| (c.render_counter_a, c.render_counter_b)), (1, 2));
    assert_eq!(snapshot(&mut state, |c| c.screen_width), 0);
}

#[test]
fn flush_advances_both_counters() {
    let mut state = ready();
    for n in 1..=3u64 {
        let mut h = get_context(&mut state).unwrap();
        h.flush();
        assert_eq!(h.context().render_counter_a, n);
        assert_eq!(h.context().render_counter_b, n);
        release_context(&mut state, h);
    }
}

#[test]
fn touch_event_records_twice() {
    let mut state = ready();
    touch_event(&mut state, true, 3, 4).unwrap();
    let touches = snapshot(&mut state, |c| c.touches.clone());
    assert_eq!(
        touches,
        vec![
            Touch { is_touch_started: true, x: 3, y: 4 },
            Touch { is_touch_started: true, x: 103, y: 104 },
        ]
    );
    assert_eq!(snapshot(&mut state, |c| (c.mouse_x, c.mouse_y)), (3, 4));
}

#[test]
fn touch_event_ended_keeps_flag() {
    let mut state = ready();
    touch_event(&mut state, false, -7, 0).unwrap();
    let touches = snapshot(&mut state, |c| c.touches.clone());
    assert_eq!(touches[0], Touch { is_touch_started: false, x: -7, y: 0 });
    assert_eq!(touches[1], Touch { is_touch_started: false, x: 93, y: 100 });
    assert_eq!(snapshot(&mut state, |c| (c.mouse_x, c.mouse_y)), (-7, 0));
}

#[test]
fn touch_offset_stops_at_largest_coordinate() {
    let mut state = ready();
    touch_event(&mut state, true, COORD_MAX - 50, 1).unwrap();
    let touches = snapshot(&mut state, |c| c.touches.clone());
    assert_eq!(touches[1].x, COORD_MAX);
    assert_eq!(touches[1].y, 101);
    assert_eq!(shift_coord(COORD_MAX, 1), COORD_MAX);
    assert_eq!(shift_coord(-5, 100), 95);
}

#[test]
fn load_sound_appends_twice() {
    let mut state = ready();
    load_sound_from_bytes(&mut state, &[7, 7]).unwrap();
    assert_eq!(snapshot(&mut state, |c| c.sounds.clone()), vec![7, 7, 7, 7]);
    assert_eq!(snapshot(&mut state, |c| c.mouse_x), 2);
    load_sound_from_bytes(&mut state, &[1, 2, 3]).unwrap();
    assert_eq!(snapshot(&mut state, |c| c.sounds.clone()), vec![7, 7, 7, 7, 1, 2, 3, 1, 2, 3]);
    assert_eq!(snapshot(&mut state, |c| c.mouse_x), 4);
}

#[test]
fn load_sound_empty_moves_pointer_only() {
    let mut state = ready();
    load_sound_from_bytes(&mut state, &[]).unwrap();
    assert!(snapshot(&mut state, |c| c.sounds.is_empty()));
    assert_eq!(snapshot(&mut state, |c| c.mouse_x), 2);
}

#[test]
fn resize_and_mouse_motion_set_fields() {
    let mut state = ready();
    resize_event(&mut state, 1920, 1080).unwrap();
    mouse_motion_event(&mut state, 42, 84).unwrap();
    assert_eq!(snapshot(&mut state, |c| (c.screen_width, c.screen_height)), (1920, 1080));
    assert_eq!(snapshot(&mut state, |c| (c.mouse_x, c.mouse_y)), (42, 84));
}

#[test]
fn five_frame_scenario() {
    let mut state = ready();
    for frame in 0..5u8 {
        let mut h = get_context(&mut state).unwrap();
        h.flush();
        h.advance_counter_a();
        release_context(&mut state, h);
        helper(&mut state).unwrap();
        resize_event(&mut state, 1920, 1080).unwrap();
        mouse_motion_event(&mut state, 42, 84).unwrap();
        touch_event(&mut state, true, frame as i64, frame as i64).unwrap();
        load_sound_from_bytes(&mut state, &[frame, frame]).unwrap();
        let mut h = get_context(&mut state).unwrap();
        h.flush();
        assert_eq!(h.context().render_counter_a, h.context().render_counter_b);
        release_context(&mut state, h);
    }
    let h = get_context(&mut state).unwrap();
    let c = h.context();
    assert_eq!(c.render_counter_a, 15);
    assert_eq!(c.render_counter_b, 15);
    assert_eq!((c.screen_width, c.screen_height), (1920, 1080));
    assert_eq!(c.touches.len(), 10);
    assert_eq!(c.sounds.len(), 20);
    assert_eq!(c.touches[9], Touch { is_touch_started: true, x: 104, y: 104 });
    release_context(&mut state, h);
}
