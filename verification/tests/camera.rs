use cubeview::camera::{
    CameraController, Direction, MouseTracking, PITCH_LIMIT, UNIT_NORM_SQ_HI, UNIT_NORM_SQ_LO,
};
use cubeview::fixed::SCALE;
use cubeview::vec3::Vec3;

fn camera_with(pitch: i64, yaw: i64) -> CameraController {
    CameraController {
        position: Vec3 { x: 0, y: 0, z: 3 * SCALE },
        front: Vec3 { x: 0, y: 0, z: -SCALE },
        yaw,
        pitch,
        mouse: MouseTracking { last_x: 0, last_y: 0, first_move: false },
    }
}

fn front_norm_sq(c: &CameraController) -> i64 {
    let f = c.front;
    f.x * f.x + f.y * f.y + f.z * f.z
}

#[test]
fn forward_step_moves_one_unit() {
    let mut c = CameraController::new();
    c.apply_movement(Direction::Forward, SCALE);
    assert_eq!(c.position, Vec3 { x: 0, y: 0, z: 2 * SCALE });
}

#[test]
fn forward_then_backward_returns_exactly() {
    let mut c = CameraController::new();
    let start = c.position;
    c.apply_movement(Direction::Forward, 123_456);
    c.apply_movement(Direction::Backward, 123_456);
    assert_eq!(c.position, start);
}

#[test]
fn left_then_right_returns_exactly() {
    let mut c = camera_with(10_000_000, 300_000_000);
    c.apply_mouse_delta(50, -30);
    let start = c.position;
    c.apply_movement(Direction::Left, 777_777);
    c.apply_movement(Direction::Right, 777_777);
    assert_eq!(c.position, start);
}

#[test]
fn first_mouse_sample_changes_no_orientation() {
    let mut c = CameraController::new();
    let front = c.front;
    let yaw = c.yaw;
    let pitch = c.pitch;
    c.apply_mouse_delta(5_000, -7_000);
    assert_eq!(c.front, front);
    assert_eq!(c.yaw, yaw);
    assert_eq!(c.pitch, pitch);
    assert_eq!(c.mouse.last_x, 5_000);
    assert_eq!(c.mouse.last_y, -7_000);
    assert!(!c.mouse.first_move);
}

#[test]
fn pitch_clamps_at_the_vertical_limit() {
    let mut c = camera_with(80_000_000, 270_000_000);
    // dy of 20000 pixels scales to +20 degrees, which would reach 100.
    c.apply_mouse_delta(0, -20_000);
    assert_eq!(c.pitch, PITCH_LIMIT);
}

#[test]
fn pitch_stays_within_limits_under_any_sequence() {
    let mut c = camera_with(0, 270_000_000);
    let samples = [
        (0, -2_000_000),
        (0, 2_000_000),
        (500, -1_000_000),
        (-500, 2_000_000),
        (0, -2_000_000),
    ];
    for (x, y) in samples {
        c.apply_mouse_delta(x, y);
        assert!(-PITCH_LIMIT <= c.pitch && c.pitch <= PITCH_LIMIT);
    }
}

#[test]
fn front_stays_unit_length_after_mouse_moves() {
    let mut c = CameraController::new();
    let samples = [(400, 300), (431, 268), (1_000, 5_000), (-2_000, 40), (123, -456)];
    for (x, y) in samples {
        c.apply_mouse_delta(x, y);
        let ns = front_norm_sq(&c);
        assert!(UNIT_NORM_SQ_LO <= ns && ns <= UNIT_NORM_SQ_HI, "norm_sq {ns}");
    }
}

#[test]
fn yaw_quarter_turn_right_faces_positive_x() {
    let mut c = camera_with(0, 270_000_000);
    // 90000 pixels scale to a quarter turn of yaw.
    c.apply_mouse_delta(90_000, 0);
    assert_eq!(c.yaw, 0);
    assert_eq!(c.front, Vec3 { x: SCALE, y: 0, z: 0 });
}

#[test]
fn view_matrix_of_the_start_state() {
    let c = CameraController::new();
    let m = c.view_matrix().expect("start view is not degenerate");
    assert_eq!(m.c0.x, SCALE);
    assert_eq!(m.c0.y, 0);
    assert_eq!(m.c0.z, 0);
    assert_eq!(m.c0.w, 0);
    assert_eq!(m.c1.y, SCALE);
    assert_eq!(m.c2.z, SCALE);
    assert_eq!(m.c3.x, 0);
    assert_eq!(m.c3.y, 0);
    assert_eq!(m.c3.z, -3 * SCALE);
    assert_eq!(m.c3.w, SCALE);
}

#[test]
fn view_matrix_degenerates_looking_straight_up() {
    let mut c = camera_with(0, 270_000_000);
    // Pitch straight up: the strafe axis degenerates.
    c.apply_mouse_delta(0, -90_000);
    assert_eq!(c.pitch, PITCH_LIMIT);
    assert!(c.view_matrix().is_none());
}

#[test]
fn extreme_pointer_deltas_keep_the_state_sane() {
    let mut c = camera_with(0, 270_000_000);
    c.apply_mouse_delta(i32::MAX, i32::MIN);
    assert!(-PITCH_LIMIT <= c.pitch && c.pitch <= PITCH_LIMIT);
    assert!(0 <= c.yaw && c.yaw < 360_000_000);
    let ns = front_norm_sq(&c);
    assert!(UNIT_NORM_SQ_LO <= ns && ns <= UNIT_NORM_SQ_HI);
    c.apply_mouse_delta(i32::MIN, i32::MAX);
    assert!(-PITCH_LIMIT <= c.pitch && c.pitch <= PITCH_LIMIT);
    assert!(0 <= c.yaw && c.yaw < 360_000_000);
}

#[test]
fn strafing_right_faces_positive_x_when_looking_down_negative_z() {
    let mut c = CameraController::new();
    c.apply_movement(Direction::Right, SCALE);
    assert_eq!(c.position, Vec3 { x: SCALE, y: 0, z: 3 * SCALE });
    c.apply_movement(Direction::Left, SCALE);
    assert_eq!(c.position, Vec3 { x: 0, y: 0, z: 3 * SCALE });
}

#[test]
fn strafing_is_ignored_when_looking_straight_up() {
    let mut c = camera_with(0, 270_000_000);
    c.apply_mouse_delta(0, -90_000);
    assert_eq!(c.front, Vec3 { x: 0, y: SCALE, z: 0 });
    let before = c.position;
    c.apply_movement(Direction::Right, SCALE);
    assert_eq!(c.position, before);
}

#[test]
fn movement_stops_at_the_position_box() {
    let mut c = CameraController::new();
    c.position = Vec3 { x: 0, y: 0, z: 1_000_000_000_000 };
    c.front = Vec3 { x: 0, y: 0, z: SCALE };
    let before = c.position;
    c.apply_movement(Direction::Forward, SCALE);
    assert_eq!(c.position, before);
}
