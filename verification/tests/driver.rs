use cubeview::clock::FrameClock;
use cubeview::driver::{Action, Driver, Event, Key, DT_CAP, MOVE_RATE};
use cubeview::camera::SPEED_MAX;
use cubeview::fixed::SCALE;
use cubeview::mat4::perspective;

#[test]
fn elapsed_time_is_never_negative() {
    let mut clock = FrameClock::new(100);
    assert_eq!(clock.tick(150), 50);
    // The clock regresses: the elapsed time clamps to zero.
    assert_eq!(clock.tick(140), 0);
    assert_eq!(clock.tick(140), 0);
    assert_eq!(clock.tick(141), 1);
    assert!(clock.last_ms == 141);
}

#[test]
fn first_tick_measures_from_construction() {
    let mut clock = FrameClock::new(1_000);
    assert_eq!(clock.tick(1_003), 3);
}

#[test]
fn frame_speed_scales_with_elapsed_time() {
    let mut d = Driver::new(0, 800, 600);
    let dt = d.begin_frame(100);
    assert_eq!(dt, 100);
    assert_eq!(d.speed, 100 * MOVE_RATE);
}

#[test]
fn frame_speed_caps_at_the_largest_step() {
    let mut d = Driver::new(0, 800, 600);
    let dt = d.begin_frame(DT_CAP + 5);
    assert_eq!(dt, DT_CAP + 5);
    assert_eq!(d.speed, SPEED_MAX);
}

#[test]
fn escape_and_close_stop_the_loop() {
    let mut d = Driver::new(0, 800, 600);
    assert!(d.running);
    d.handle_event(Event::KeyDown(Key::Escape));
    assert!(!d.running);

    let mut d2 = Driver::new(0, 800, 600);
    d2.handle_event(Event::WindowClose);
    assert!(!d2.running);
}

#[test]
fn forward_key_moves_the_camera() {
    let mut d = Driver::new(0, 800, 600);
    d.begin_frame(100);
    // 100 ms at ten units per second: one unit forward, from z=3 to z=2.
    assert_eq!(d.speed, SCALE);
    d.handle_event(Event::KeyDown(Key::W));
    assert_eq!(d.camera.position.z, 2 * SCALE);
    assert_eq!(d.camera.position.x, 0);
    assert_eq!(d.camera.position.y, 0);
}

#[test]
fn other_keys_change_nothing() {
    let mut d = Driver::new(0, 800, 600);
    d.begin_frame(100);
    let pos = d.camera.position;
    let a = d.handle_event(Event::KeyDown(Key::Other));
    assert!(a.is_none());
    assert_eq!(d.camera.position, pos);
    assert!(d.running);
}

#[test]
fn pointer_event_recenters_the_pointer() {
    let mut d = Driver::new(0, 800, 600);
    let a = d.handle_event(Event::PointerMoved(10, 20));
    assert_eq!(a, Some(Action::WarpPointer(400, 300)));
    assert_eq!(d.camera.mouse.last_x, 400);
    assert_eq!(d.camera.mouse.last_y, 300);
    assert!(!d.camera.mouse.first_move);
}

#[test]
fn resize_updates_the_aspect_ratio_next_frame() {
    let mut d = Driver::new(0, 800, 600);
    assert_eq!(d.aspect(), 800 * SCALE / 600);
    d.handle_event(Event::Resized(1024, 600));
    assert_eq!(d.aspect(), 1024 * SCALE / 600);
    assert_eq!(d.aspect(), 1_706_666);
    let p = perspective(d.aspect());
    assert_eq!(p.c0.x, 2_414_214 * SCALE / 1_706_666);
    let t = d.frame_transform().expect("start view is not degenerate");
    // The focal column of the transform carries the projection's x scale.
    assert_eq!(t.c0.x, p.c0.x);
}

#[test]
fn zero_window_dimensions_are_clamped() {
    let mut d = Driver::new(0, 800, 600);
    d.handle_event(Event::Resized(0, 0));
    assert_eq!(d.width, 1);
    assert_eq!(d.height, 1);
    assert_eq!(d.aspect(), SCALE);
}

#[test]
fn transform_of_the_start_state() {
    let d = Driver::new(0, 800, 600);
    let t = d.frame_transform().expect("start view is not degenerate");
    // Row 3 of the transform is -z of the view: the camera sits at z=3.
    assert_eq!(t.c3.w, 3 * SCALE);
    assert_eq!(t.c0.w, 0);
    assert_eq!(t.c1.w, 0);
    assert_eq!(t.c2.w, -SCALE);
}
