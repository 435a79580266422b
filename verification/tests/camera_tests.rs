use donkey::camera3d::{Camera3D, CameraProjection};
use donkey::controller::{update_camera, FrameInput, PressTracker};
use donkey::vector3::Vector3;
use donkey::CameraMode;

fn base_camera() -> Camera3D {
    Camera3D::new(
        Vector3::new(0, 0, 0),
        Vector3::new(0, 0, 10_000_000),
        Vector3::new(0, 1_000_000, 0),
        90_000_000,
        CameraProjection::Perspective,
    )
}

fn no_input() -> FrameInput {
    FrameInput {
        frame_time: 0,
        mouse_delta_x: 0,
        mouse_delta_y: 0,
        mouse_wheel_move: 0,
        left_mouse_down: false,
        middle_mouse_down: false,
        key_down_w: false,
        key_down_a: false,
        key_down_s: false,
        key_down_d: false,
        key_down_up: false,
        key_down_down: false,
        key_down_left: false,
        key_down_right: false,
        key_down_q: false,
        key_down_e: false,
        key_down_space: false,
        key_down_left_control: false,
        key_pressed_kp_add: false,
        key_pressed_kp_subtract: false,
        gamepad_available: false,
        gamepad_left_x: 0,
        gamepad_left_y: 0,
        gamepad_right_x: 0,
        gamepad_right_y: 0,
    }
}

#[test]
fn orbital_zero_elapsed_time_keeps_position() {
    let mut cam = base_camera();
    let before = cam;
    update_camera(&mut cam, CameraMode::Orbital, &no_input());
    assert_eq!(cam.position, before.position);
    assert_eq!(cam.target, before.target);
    assert_eq!(cam.up, before.up);
}

#[test]
fn orbital_nonzero_time_moves_position() {
    let mut cam = Camera3D::new(
        Vector3::new(10_000_000, 0, 0),
        Vector3::new(0, 0, 0),
        Vector3::new(0, 1_000_000, 0),
        90_000_000,
        CameraProjection::Perspective,
    );
    let mut input = no_input();
    input.frame_time = 1_000_000; // one second: half a radian of orbit
    update_camera(&mut cam, CameraMode::Orbital, &input);
    assert_ne!(cam.position, Vector3::new(10_000_000, 0, 0));
    assert_eq!(cam.target, Vector3::new(0, 0, 0));
}

#[test]
fn free_forward_key_moves_one_step() {
    let mut cam = base_camera();
    let mut input = no_input();
    input.key_down_w = true;
    input.frame_time = 16_000; // elapsed time must not affect movement
    update_camera(&mut cam, CameraMode::Free, &input);
    assert_eq!(cam.position, Vector3::new(0, 0, 90_000));
    assert_eq!(cam.target, Vector3::new(0, 0, 10_090_000));

    // a second frame with a different elapsed time moves the same amount
    let mut input2 = input;
    input2.frame_time = 500_000;
    update_camera(&mut cam, CameraMode::Free, &input2);
    assert_eq!(cam.position, Vector3::new(0, 0, 180_000));
    assert_eq!(cam.target, Vector3::new(0, 0, 10_180_000));
}

#[test]
fn gamepad_left_stick_moves_forward() {
    let mut cam = base_camera();
    let mut input = no_input();
    input.gamepad_available = true;
    input.gamepad_left_y = -1_000_000; // full forward, past the dead zone
    update_camera(&mut cam, CameraMode::Free, &input);
    assert_eq!(cam.position, Vector3::new(0, 0, 90_000));
    assert_eq!(cam.target, Vector3::new(0, 0, 10_090_000));
}

#[test]
fn gamepad_inside_dead_zone_does_not_move() {
    let mut cam = base_camera();
    let before = cam;
    let mut input = no_input();
    input.gamepad_available = true;
    input.gamepad_left_y = -249_000; // inside the 0.25 dead zone
    input.gamepad_left_x = 249_000;
    update_camera(&mut cam, CameraMode::Free, &input);
    assert_eq!(cam.position, before.position);
    assert_eq!(cam.target, before.target);
}

#[test]
fn free_middle_mouse_pan_moves_right() {
    let mut cam = base_camera();
    let mut input = no_input();
    input.middle_mouse_down = true;
    input.mouse_delta_x = 5_000_000; // positive delta pans at the fixed speed
    update_camera(&mut cam, CameraMode::Free, &input);
    // right is the negative x axis for a camera looking along +z with +y up
    assert_eq!(cam.position, Vector3::new(-200_000, 0, 0));
    assert_eq!(cam.target, Vector3::new(-200_000, 0, 10_000_000));
}

#[test]
fn mouse_wheel_zooms_toward_target() {
    let mut cam = Camera3D::new(
        Vector3::new(0, 0, -10_000_000),
        Vector3::new(0, 0, 0),
        Vector3::new(0, 1_000_000, 0),
        90_000_000,
        CameraProjection::Perspective,
    );
    let mut input = no_input();
    input.mouse_wheel_move = 1_000_000; // one wheel step approaches by one unit
    update_camera(&mut cam, CameraMode::Free, &input);
    assert_eq!(cam.position, Vector3::new(0, 0, -9_000_000));
    assert_eq!(cam.target, Vector3::new(0, 0, 0));
}

#[test]
fn zoom_step_key_fires_once_while_held() {
    let mut cam = Camera3D::new(
        Vector3::new(0, 0, -10_000_000),
        Vector3::new(0, 0, 0),
        Vector3::new(0, 1_000_000, 0),
        90_000_000,
        CameraProjection::Perspective,
    );
    let mut tracker = PressTracker::new();

    // frame one: the key goes down
    let mut input = no_input();
    input.key_pressed_kp_add = tracker.sample(true);
    assert!(input.key_pressed_kp_add);
    update_camera(&mut cam, CameraMode::Free, &input);
    assert_eq!(cam.position, Vector3::new(0, 0, -8_000_000));

    // frame two: the key is still held, but it is no longer a press
    let mut input2 = no_input();
    input2.key_pressed_kp_add = tracker.sample(true);
    assert!(!input2.key_pressed_kp_add);
    update_camera(&mut cam, CameraMode::Free, &input2);
    assert_eq!(cam.position, Vector3::new(0, 0, -8_000_000));

    // releasing and pressing again fires another step
    let _ = tracker.sample(false);
    let mut input3 = no_input();
    input3.key_pressed_kp_add = tracker.sample(true);
    assert!(input3.key_pressed_kp_add);
    update_camera(&mut cam, CameraMode::Free, &input3);
    assert_eq!(cam.position, Vector3::new(0, 0, -6_000_000));
}

#[test]
fn locked_pitch_refuses_to_flip_past_vertical() {
    // a camera looking almost straight up
    let mut cam = Camera3D::new(
        Vector3::new(0, 0, 0),
        Vector3::new(0, 10_000_000, 1_000),
        Vector3::new(0, 1_000_000, 0),
        90_000_000,
        CameraProjection::Perspective,
    );
    let before = cam;
    cam.pitch(30_000, true, false, false);
    assert_eq!(cam.position, before.position);
    assert_eq!(cam.target, before.target);
}

#[test]
fn unlocked_pitch_turns_the_view() {
    let mut cam = base_camera();
    let before = cam;
    cam.pitch(30_000, false, false, false);
    assert_eq!(cam.position, before.position);
    assert_ne!(cam.target, before.target);
}

#[test]
fn rotation_key_yaws_around_position() {
    let mut cam = base_camera();
    let mut input = no_input();
    input.key_down_left = true;
    update_camera(&mut cam, CameraMode::Free, &input);
    assert_eq!(cam.position, Vector3::new(0, 0, 0));
    assert_ne!(cam.target, Vector3::new(0, 0, 10_000_000));
}

#[test]
fn custom_mode_ignores_wheel() {
    let mut cam = Camera3D::new(
        Vector3::new(0, 0, -10_000_000),
        Vector3::new(0, 0, 0),
        Vector3::new(0, 1_000_000, 0),
        90_000_000,
        CameraProjection::Perspective,
    );
    let before = cam;
    let mut input = no_input();
    input.mouse_wheel_move = 1_000_000;
    update_camera(&mut cam, CameraMode::Custom, &input);
    assert_eq!(cam.position, before.position);
}
