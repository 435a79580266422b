//! The per-frame camera-update controller.
//!
//! Given a camera, a mode and one frame's worth of sampled input, the
//! controller applies rotation, movement, vertical-move and zoom
//! adjustments in a fixed order, each a no-op when its trigger is off.
//! The whole update is specified as a pure function of the old camera and
//! the input, and the executable controller is proved to compute exactly
//! that function.

use crate::camera3d::{
    forward_spec, move_forward_spec, move_right_spec, move_to_target_spec, move_up_spec,
    pitch_spec, roll_spec, up_spec, v3_fits, yaw_spec, Camera3D,
};
use crate::fixed::{fmul, lemma_fmul_abs_bound, lemma_fmul_zero, mul_fp, SCALE};
use crate::matrix::{lemma_rotate_zero_is_identity, lemma_transform_identity, rotate_spec};
use crate::vector3::{
    lemma_normalize_spec_bounded, transform_spec, v3_bounded, vadd_spec, vscale_spec, vsub_spec,
    Vector3Add, Vector3Normalize, Vector3Subtract, Vector3Transform, COORD_MAX,
};
use crate::CameraMode;
use vstd::prelude::*;

verus! {

/// Angular speed of the orbital mode, radians per second at scale.
pub const CAMERA_ORBITAL_SPEED: i64 = 500_000;

/// Angular step of the rotation keys, radians per frame at scale.
pub const CAMERA_ROTATION_SPEED: i64 = 30_000;

/// Distance step of a mouse pan, units per frame at scale.
pub const CAMERA_PAN_SPEED: i64 = 200_000;

/// Radians of rotation per pixel of mouse travel, at scale.
pub const CAMERA_MOUSE_MOVE_SENSITIVITY: i64 = 3_000;

/// Distance step of the movement keys, units per frame at scale.
pub const CAMERA_MOVE_SPEED: i64 = 90_000;

/// Distance step of the discrete zoom keys, at scale.
pub const CAMERA_ZOOM_STEP: i64 = 2_000_000;

/// Dead zone of the gamepad movement axes, at scale.
pub const GAMEPAD_DEAD_ZONE: i64 = 250_000;

/// One frame's worth of sampled input signals.
#[derive(Clone, Copy, Debug)]
pub struct FrameInput {
    /// Seconds since the last frame, at scale.
    pub frame_time: i64,
    /// Mouse travel since the last frame, pixels at scale.
    pub mouse_delta_x: i64,
    pub mouse_delta_y: i64,
    /// Mouse-wheel travel since the last frame, steps at scale.
    pub mouse_wheel_move: i64,
    pub left_mouse_down: bool,
    pub middle_mouse_down: bool,
    pub key_down_w: bool,
    pub key_down_a: bool,
    pub key_down_s: bool,
    pub key_down_d: bool,
    pub key_down_up: bool,
    pub key_down_down: bool,
    pub key_down_left: bool,
    pub key_down_right: bool,
    pub key_down_q: bool,
    pub key_down_e: bool,
    pub key_down_space: bool,
    pub key_down_left_control: bool,
    /// Discrete press events of the zoom-step keys: true only on the frame
    /// the key goes down.
    pub key_pressed_kp_add: bool,
    pub key_pressed_kp_subtract: bool,
    pub gamepad_available: bool,
    /// Gamepad stick positions in `[-1, 1]`, at scale.
    pub gamepad_left_x: i64,
    pub gamepad_left_y: i64,
    pub gamepad_right_x: i64,
    pub gamepad_right_y: i64,
}

impl FrameInput {
    /// All analog signals are in the ranges the frame loop can produce.
    pub open spec fn wf(self) -> bool {
        &&& 0 <= self.frame_time <= 2_000_000
        &&& -300_000_000 <= self.mouse_delta_x <= 300_000_000
        &&& -300_000_000 <= self.mouse_delta_y <= 300_000_000
        &&& -100_000_000 <= self.mouse_wheel_move <= 100_000_000
        &&& -SCALE <= self.gamepad_left_x <= SCALE
        &&& -SCALE <= self.gamepad_left_y <= SCALE
        &&& -SCALE <= self.gamepad_right_x <= SCALE
        &&& -SCALE <= self.gamepad_right_y <= SCALE
    }
}

/// The modes whose pitch keeps the view from flipping past vertical.
pub open spec fn mode_lock_view(mode: CameraMode) -> bool {
    mode == CameraMode::FirstPerson || mode == CameraMode::ThirdPerson || mode
        == CameraMode::Orbital
}

/// The modes whose rotation pivots around the target.
pub open spec fn mode_rotate_around_target(mode: CameraMode) -> bool {
    mode == CameraMode::ThirdPerson || mode == CameraMode::Orbital
}

/// The modes whose movement is projected onto the horizontal plane.
pub open spec fn mode_move_in_world_plane(mode: CameraMode) -> bool {
    mode == CameraMode::FirstPerson || mode == CameraMode::ThirdPerson
}

/// The modes in which the mouse wheel and the zoom-step keys act.
pub open spec fn mode_zooms(mode: CameraMode) -> bool {
    mode == CameraMode::ThirdPerson || mode == CameraMode::Orbital || mode == CameraMode::Free
}

/// The orbital step: the view orbits the target about the camera's up
/// axis at the fixed angular speed scaled by elapsed time.
pub open spec fn orbital_spec(cam: Camera3D, dt: int) -> Camera3D {
    let axis = up_spec(cam);
    let m = rotate_spec(axis, fmul(dt, CAMERA_ORBITAL_SPEED as int));
    let view = vsub_spec(cam.position, cam.target);
    let v2 = transform_spec(view, m);
    let p = vadd_spec(cam.target, v2);
    if v3_bounded(p, COORD_MAX as int) {
        Camera3D {
            position: p,
            target: cam.target,
            up: cam.up,
            fovy: cam.fovy,
            projection: cam.projection,
        }
    } else {
        cam
    }
}

/// The rotation adjustments of the directional keys, in their fixed order.
pub open spec fn rotation_spec(cam: Camera3D, mode: CameraMode, i: FrameInput) -> Camera3D {
    let lock = mode_lock_view(mode);
    let rat = mode_rotate_around_target(mode);
    let c1 = if i.key_down_down {
        pitch_spec(cam, -CAMERA_ROTATION_SPEED as int, lock, rat, false)
    } else {
        cam
    };
    let c2 = if i.key_down_up {
        pitch_spec(c1, CAMERA_ROTATION_SPEED as int, lock, rat, false)
    } else {
        c1
    };
    let c3 = if i.key_down_right {
        yaw_spec(c2, -CAMERA_ROTATION_SPEED as int, rat)
    } else {
        c2
    };
    let c4 = if i.key_down_left {
        yaw_spec(c3, CAMERA_ROTATION_SPEED as int, rat)
    } else {
        c3
    };
    let c5 = if i.key_down_q {
        roll_spec(c4, -CAMERA_ROTATION_SPEED as int)
    } else {
        c4
    };
    if i.key_down_e {
        roll_spec(c5, CAMERA_ROTATION_SPEED as int)
    } else {
        c5
    }
}

/// The mouse adjustments without a gamepad: a middle-button pan in Free
/// mode, else a left-button look.
pub open spec fn mouse_spec(cam: Camera3D, mode: CameraMode, i: FrameInput) -> Camera3D {
    let lock = mode_lock_view(mode);
    let rat = mode_rotate_around_target(mode);
    let wp = mode_move_in_world_plane(mode);
    if mode == CameraMode::Free && i.middle_mouse_down {
        let m1 = if i.mouse_delta_x > 0 {
            move_right_spec(cam, CAMERA_PAN_SPEED as int, wp)
        } else {
            cam
        };
        let m2 = if i.mouse_delta_x < 0 {
            move_right_spec(m1, -CAMERA_PAN_SPEED as int, wp)
        } else {
            m1
        };
        let m3 = if i.mouse_delta_y > 0 {
            move_up_spec(m2, -CAMERA_PAN_SPEED as int)
        } else {
            m2
        };
        if i.mouse_delta_y < 0 {
            move_up_spec(m3, CAMERA_PAN_SPEED as int)
        } else {
            m3
        }
    } else if i.left_mouse_down {
        let c1 = yaw_spec(
            cam,
            fmul(-(i.mouse_delta_x as int), CAMERA_MOUSE_MOVE_SENSITIVITY as int),
            rat,
        );
        pitch_spec(
            c1,
            fmul(-(i.mouse_delta_y as int), CAMERA_MOUSE_MOVE_SENSITIVITY as int),
            lock,
            rat,
            false,
        )
    } else {
        cam
    }
}

/// The movement keys, in their fixed order.
pub open spec fn keys_spec(cam: Camera3D, mode: CameraMode, i: FrameInput) -> Camera3D {
    let wp = mode_move_in_world_plane(mode);
    let k1 = if i.key_down_w {
        move_forward_spec(cam, CAMERA_MOVE_SPEED as int, wp)
    } else {
        cam
    };
    let k2 = if i.key_down_a {
        move_right_spec(k1, -CAMERA_MOVE_SPEED as int, wp)
    } else {
        k1
    };
    let k3 = if i.key_down_s {
        move_forward_spec(k2, -CAMERA_MOVE_SPEED as int, wp)
    } else {
        k2
    };
    if i.key_down_d {
        move_right_spec(k3, CAMERA_MOVE_SPEED as int, wp)
    } else {
        k3
    }
}

/// The gamepad adjustments: right stick looks, left stick moves past a
/// dead zone, each axis checked independently.
pub open spec fn gamepad_spec(cam: Camera3D, mode: CameraMode, i: FrameInput) -> Camera3D {
    let lock = mode_lock_view(mode);
    let rat = mode_rotate_around_target(mode);
    let wp = mode_move_in_world_plane(mode);
    let g1 = yaw_spec(
        cam,
        fmul(-2 * (i.gamepad_right_x as int), CAMERA_MOUSE_MOVE_SENSITIVITY as int),
        rat,
    );
    let g2 = pitch_spec(
        g1,
        fmul(-2 * (i.gamepad_right_y as int), CAMERA_MOUSE_MOVE_SENSITIVITY as int),
        lock,
        rat,
        false,
    );
    let g3 = if i.gamepad_left_y <= -GAMEPAD_DEAD_ZONE {
        move_forward_spec(g2, CAMERA_MOVE_SPEED as int, wp)
    } else {
        g2
    };
    let g4 = if i.gamepad_left_x <= -GAMEPAD_DEAD_ZONE {
        move_right_spec(g3, -CAMERA_MOVE_SPEED as int, wp)
    } else {
        g3
    };
    let g5 = if i.gamepad_left_y >= GAMEPAD_DEAD_ZONE {
        move_forward_spec(g4, -CAMERA_MOVE_SPEED as int, wp)
    } else {
        g4
    };
    if i.gamepad_left_x >= GAMEPAD_DEAD_ZONE {
        move_right_spec(g5, CAMERA_MOVE_SPEED as int, wp)
    } else {
        g5
    }
}

/// The movement step: mouse and keys, or the gamepad when one is present.
pub open spec fn movement_spec(cam: Camera3D, mode: CameraMode, i: FrameInput) -> Camera3D {
    if !i.gamepad_available {
        keys_spec(mouse_spec(cam, mode, i), mode, i)
    } else {
        gamepad_spec(cam, mode, i)
    }
}

/// The vertical-move step, Free mode only.
pub open spec fn vertical_spec(cam: Camera3D, mode: CameraMode, i: FrameInput) -> Camera3D {
    if mode == CameraMode::Free {
        let s1 = if i.key_down_space {
            move_up_spec(cam, CAMERA_MOVE_SPEED as int)
        } else {
            cam
        };
        if i.key_down_left_control {
            move_up_spec(s1, -CAMERA_MOVE_SPEED as int)
        } else {
            s1
        }
    } else {
        cam
    }
}

/// The zoom step: continuous wheel zoom plus the two discrete step keys,
/// in the zooming modes only.
pub open spec fn zoom_spec(cam: Camera3D, mode: CameraMode, i: FrameInput) -> Camera3D {
    if mode_zooms(mode) {
        let z1 = move_to_target_spec(cam, -(i.mouse_wheel_move as int));
        let z2 = if i.key_pressed_kp_subtract {
            move_to_target_spec(z1, CAMERA_ZOOM_STEP as int)
        } else {
            z1
        };
        if i.key_pressed_kp_add {
            move_to_target_spec(z2, -CAMERA_ZOOM_STEP as int)
        } else {
            z2
        }
    } else {
        cam
    }
}

/// The whole frame update: the orbital step in Orbital mode, else the
/// rotation, movement and vertical steps; then the zoom step.
pub open spec fn update_camera_spec(cam: Camera3D, mode: CameraMode, i: FrameInput) -> Camera3D {
    let base = if mode == CameraMode::Orbital {
        orbital_spec(cam, i.frame_time as int)
    } else {
        vertical_spec(movement_spec(rotation_spec(cam, mode, i), mode, i), mode, i)
    };
    zoom_spec(base, mode, i)
}

/// The orbital step, in place.
fn orbital_step(camera: &mut Camera3D, input: &FrameInput)
    requires
        old(camera).wf(),
        input.wf(),
    ensures
        *final(camera) == orbital_spec(*old(camera), input.frame_time as int),
        final(camera).wf(),
{
    let cam = *camera;
    let axis = Vector3Normalize(cam.up);
    proof {
        lemma_fmul_abs_bound(
            input.frame_time as int,
            CAMERA_ORBITAL_SPEED as int,
            2_000_000,
            500_000,
        );
    }
    let angle = mul_fp(input.frame_time, CAMERA_ORBITAL_SPEED);
    let m = crate::matrix::MatrixRotate(axis, angle);
    let view = Vector3Subtract(cam.position, cam.target);
    let v2 = Vector3Transform(view, m);
    let p = Vector3Add(cam.target, v2);
    if v3_fits(p) {
        camera.position = p;
    }
}

/// The rotation-key step, in place.
fn rotation_step(camera: &mut Camera3D, mode: CameraMode, input: &FrameInput)
    requires
        old(camera).wf(),
        input.wf(),
    ensures
        *final(camera) == rotation_spec(*old(camera), mode, *input),
        final(camera).wf(),
{
    let lock_view = matches!(
        mode,
        CameraMode::FirstPerson | CameraMode::ThirdPerson | CameraMode::Orbital
    );
    let rotate_around_target = matches!(mode, CameraMode::ThirdPerson | CameraMode::Orbital);
    if input.key_down_down {
        camera.pitch(-CAMERA_ROTATION_SPEED, lock_view, rotate_around_target, false);
    }
    if input.key_down_up {
        camera.pitch(CAMERA_ROTATION_SPEED, lock_view, rotate_around_target, false);
    }
    if input.key_down_right {
        camera.yaw(-CAMERA_ROTATION_SPEED, rotate_around_target);
    }
    if input.key_down_left {
        camera.yaw(CAMERA_ROTATION_SPEED, rotate_around_target);
    }
    if input.key_down_q {
        camera.roll(-CAMERA_ROTATION_SPEED);
    }
    if input.key_down_e {
        camera.roll(CAMERA_ROTATION_SPEED);
    }
}

/// The mouse step (pan or look), in place.
fn mouse_step(camera: &mut Camera3D, mode: CameraMode, input: &FrameInput)
    requires
        old(camera).wf(),
        input.wf(),
    ensures
        *final(camera) == mouse_spec(*old(camera), mode, *input),
        final(camera).wf(),
{
    let lock_view = matches!(
        mode,
        CameraMode::FirstPerson | CameraMode::ThirdPerson | CameraMode::Orbital
    );
    let rotate_around_target = matches!(mode, CameraMode::ThirdPerson | CameraMode::Orbital);
    let move_in_world_plane = matches!(mode, CameraMode::FirstPerson | CameraMode::ThirdPerson);
    if mode == CameraMode::Free && input.middle_mouse_down {
        if input.mouse_delta_x > 0 {
            camera.move_right(CAMERA_PAN_SPEED, move_in_world_plane);
        }
        if input.mouse_delta_x < 0 {
            camera.move_right(-CAMERA_PAN_SPEED, move_in_world_plane);
        }
        if input.mouse_delta_y > 0 {
            camera.move_up(-CAMERA_PAN_SPEED);
        }
        if input.mouse_delta_y < 0 {
            camera.move_up(CAMERA_PAN_SPEED);
        }
    } else {
        if input.left_mouse_down {
            proof {
                lemma_fmul_abs_bound(
                    -(input.mouse_delta_x as int),
                    CAMERA_MOUSE_MOVE_SENSITIVITY as int,
                    300_000_000,
                    3_000,
                );
                lemma_fmul_abs_bound(
                    -(input.mouse_delta_y as int),
                    CAMERA_MOUSE_MOVE_SENSITIVITY as int,
                    300_000_000,
                    3_000,
                );
            }
            let ya = mul_fp(-input.mouse_delta_x, CAMERA_MOUSE_MOVE_SENSITIVITY);
            camera.yaw(ya, rotate_around_target);
            let pa = mul_fp(-input.mouse_delta_y, CAMERA_MOUSE_MOVE_SENSITIVITY);
            camera.pitch(pa, lock_view, rotate_around_target, false);
        }
    }
}

/// The movement-key step, in place.
fn keys_step(camera: &mut Camera3D, mode: CameraMode, input: &FrameInput)
    requires
        old(camera).wf(),
        input.wf(),
    ensures
        *final(camera) == keys_spec(*old(camera), mode, *input),
        final(camera).wf(),
{
    let move_in_world_plane = matches!(mode, CameraMode::FirstPerson | CameraMode::ThirdPerson);
    if input.key_down_w {
        camera.move_forward(CAMERA_MOVE_SPEED, move_in_world_plane);
    }
    if input.key_down_a {
        camera.move_right(-CAMERA_MOVE_SPEED, move_in_world_plane);
    }
    if input.key_down_s {
        camera.move_forward(-CAMERA_MOVE_SPEED, move_in_world_plane);
    }
    if input.key_down_d {
        camera.move_right(CAMERA_MOVE_SPEED, move_in_world_plane);
    }
}

/// The gamepad step, in place.
fn gamepad_step(camera: &mut Camera3D, mode: CameraMode, input: &FrameInput)
    requires
        old(camera).wf(),
        input.wf(),
    ensures
        *final(camera) == gamepad_spec(*old(camera), mode, *input),
        final(camera).wf(),
{
    let lock_view = matches!(
        mode,
        CameraMode::FirstPerson | CameraMode::ThirdPerson | CameraMode::Orbital
    );
    let rotate_around_target = matches!(mode, CameraMode::ThirdPerson | CameraMode::Orbital);
    let move_in_world_plane = matches!(mode, CameraMode::FirstPerson | CameraMode::ThirdPerson);
    proof {
        lemma_fmul_abs_bound(
            -2 * (input.gamepad_right_x as int),
            CAMERA_MOUSE_MOVE_SENSITIVITY as int,
            2_000_000,
            3_000,
        );
        lemma_fmul_abs_bound(
            -2 * (input.gamepad_right_y as int),
            CAMERA_MOUSE_MOVE_SENSITIVITY as int,
            2_000_000,
            3_000,
        );
    }
    let ya = mul_fp(-(2 * input.gamepad_right_x), CAMERA_MOUSE_MOVE_SENSITIVITY);
    camera.yaw(ya, rotate_around_target);
    let pa = mul_fp(-(2 * input.gamepad_right_y), CAMERA_MOUSE_MOVE_SENSITIVITY);
    camera.pitch(pa, lock_view, rotate_around_target, false);
    if input.gamepad_left_y <= -GAMEPAD_DEAD_ZONE {
        camera.move_forward(CAMERA_MOVE_SPEED, move_in_world_plane);
    }
    if input.gamepad_left_x <= -GAMEPAD_DEAD_ZONE {
        camera.move_right(-CAMERA_MOVE_SPEED, move_in_world_plane);
    }
    if input.gamepad_left_y >= GAMEPAD_DEAD_ZONE {
        camera.move_forward(-CAMERA_MOVE_SPEED, move_in_world_plane);
    }
    if input.gamepad_left_x >= GAMEPAD_DEAD_ZONE {
        camera.move_right(CAMERA_MOVE_SPEED, move_in_world_plane);
    }
}

/// The vertical-move step, in place.
fn vertical_step(camera: &mut Camera3D, mode: CameraMode, input: &FrameInput)
    requires
        old(camera).wf(),
        input.wf(),
    ensures
        *final(camera) == vertical_spec(*old(camera), mode, *input),
        final(camera).wf(),
{
    if mode == CameraMode::Free {
        if input.key_down_space {
            camera.move_up(CAMERA_MOVE_SPEED);
        }
        if input.key_down_left_control {
            camera.move_up(-CAMERA_MOVE_SPEED);
        }
    }
}

/// The zoom step, in place.
fn zoom_step(camera: &mut Camera3D, mode: CameraMode, input: &FrameInput)
    requires
        old(camera).wf(),
        input.wf(),
    ensures
        *final(camera) == zoom_spec(*old(camera), mode, *input),
        final(camera).wf(),
{
    if matches!(mode, CameraMode::ThirdPerson | CameraMode::Orbital | CameraMode::Free) {
        camera.move_to_target(-input.mouse_wheel_move);
        if input.key_pressed_kp_subtract {
            camera.move_to_target(CAMERA_ZOOM_STEP);
        }
        if input.key_pressed_kp_add {
            camera.move_to_target(-CAMERA_ZOOM_STEP);
        }
    }
}

/// Applies one frame of input to the camera, in place.
pub fn update_camera(camera: &mut Camera3D, mode: CameraMode, input: &FrameInput)
    requires
        old(camera).wf(),
        input.wf(),
    ensures
        *final(camera) == update_camera_spec(*old(camera), mode, *input),
        final(camera).wf(),
{
    if mode == CameraMode::Orbital {
        orbital_step(camera, input);
    } else {
        rotation_step(camera, mode, input);
        if !input.gamepad_available {
            mouse_step(camera, mode, input);
            keys_step(camera, mode, input);
        } else {
            gamepad_step(camera, mode, input);
        }
        vertical_step(camera, mode, input);
    }
    zoom_step(camera, mode, input);
}

/// Edge detector for a key's "pressed" signal: a press is reported only
/// on the frame the key goes down, never while it stays held.
pub struct PressTracker {
    pub was_down: bool,
}

impl PressTracker {
    /// What one sample reports: the key is down now and was not before.
    pub open spec fn press_spec(was_down: bool, down: bool) -> bool {
        down && !was_down
    }

    pub fn new() -> (t: PressTracker)
        ensures
            !t.was_down,
    {
        PressTracker { was_down: false }
    }

    /// Feeds one frame's "down" sample and reports whether that frame is
    /// a press.
    pub fn sample(&mut self, down: bool) -> (pressed: bool)
        ensures
            pressed == PressTracker::press_spec(old(self).was_down, down),
            final(self).was_down == down,
    {
        let pressed = down && !self.was_down;
        self.was_down = down;
        pressed
    }
}

/// Orbital mode with zero elapsed time and no zoom input leaves the whole
/// camera exactly where it was: the orbit degenerates to a rotation by
/// zero radians, which is the identity.
#[verifier::rlimit(100)]
pub proof fn lemma_orbital_zero_dt(cam: Camera3D, i: FrameInput)
    requires
        cam.wf(),
        i.wf(),
        i.frame_time == 0,
        i.mouse_wheel_move == 0,
        !i.key_pressed_kp_add,
        !i.key_pressed_kp_subtract,
    ensures
        update_camera_spec(cam, CameraMode::Orbital, i) == cam,
{
    lemma_fmul_zero(CAMERA_ORBITAL_SPEED as int);
    assert(fmul(i.frame_time as int, CAMERA_ORBITAL_SPEED as int) == 0);
    lemma_rotate_zero_is_identity(up_spec(cam));
    let view = vsub_spec(cam.position, cam.target);
    lemma_transform_identity(view);
    assert(vadd_spec(cam.target, view) == cam.position);
    assert(orbital_spec(cam, i.frame_time as int) == cam);
    assert(zoom_spec(cam, CameraMode::Orbital, i) == cam);
}

/// A frame with no active input leaves a Free-mode camera unchanged.
pub proof fn lemma_inert_frame(cam: Camera3D, i: FrameInput)
    requires
        cam.wf(),
        i.wf(),
        !i.key_down_w,
        !i.key_down_a,
        !i.key_down_s,
        !i.key_down_d,
        !i.key_down_up,
        !i.key_down_down,
        !i.key_down_left,
        !i.key_down_right,
        !i.key_down_q,
        !i.key_down_e,
        !i.key_down_space,
        !i.key_down_left_control,
        !i.left_mouse_down,
        !i.middle_mouse_down,
        !i.gamepad_available,
        i.mouse_wheel_move == 0,
        !i.key_pressed_kp_add,
        !i.key_pressed_kp_subtract,
    ensures
        update_camera_spec(cam, CameraMode::Free, i) == cam,
{
}

/// In Free mode with only the forward key held and no other input, one
/// update advances the position and the target by exactly one
/// fixed-speed step along the camera's forward direction. The elapsed
/// time does not appear: movement is one step per call, whatever the
/// frame took.
#[verifier::rlimit(100)]
pub proof fn lemma_free_forward_step(cam: Camera3D, i: FrameInput)
    requires
        cam.wf(),
        i.wf(),
        v3_bounded(cam.position, COORD_MAX as int - 100_000),
        v3_bounded(cam.target, COORD_MAX as int - 100_000),
        i.key_down_w,
        !i.key_down_a,
        !i.key_down_s,
        !i.key_down_d,
        !i.key_down_up,
        !i.key_down_down,
        !i.key_down_left,
        !i.key_down_right,
        !i.key_down_q,
        !i.key_down_e,
        !i.key_down_space,
        !i.key_down_left_control,
        !i.left_mouse_down,
        !i.middle_mouse_down,
        !i.gamepad_available,
        i.mouse_wheel_move == 0,
        !i.key_pressed_kp_add,
        !i.key_pressed_kp_subtract,
    ensures
        update_camera_spec(cam, CameraMode::Free, i) == (Camera3D {
            position: vadd_spec(
                cam.position,
                vscale_spec(forward_spec(cam), CAMERA_MOVE_SPEED as int),
            ),
            target: vadd_spec(
                cam.target,
                vscale_spec(forward_spec(cam), CAMERA_MOVE_SPEED as int),
            ),
            up: cam.up,
            fovy: cam.fovy,
            projection: cam.projection,
        }),
{
    assert(rotation_spec(cam, CameraMode::Free, i) == cam);
    assert(mouse_spec(cam, CameraMode::Free, i) == cam);
    lemma_normalize_spec_bounded(vsub_spec(cam.target, cam.position));
    let f = forward_spec(cam);
    lemma_fmul_abs_bound(CAMERA_MOVE_SPEED as int, f.x as int, 90_000, 1_000_000);
    lemma_fmul_abs_bound(CAMERA_MOVE_SPEED as int, f.y as int, 90_000, 1_000_000);
    lemma_fmul_abs_bound(CAMERA_MOVE_SPEED as int, f.z as int, 90_000, 1_000_000);
    assert(90_000int * 1_000_000int / 1_000_000int == 90_000int);
    let step = vscale_spec(f, CAMERA_MOVE_SPEED as int);
    assert(v3_bounded(step, 90_000int));
    let stepped = Camera3D {
        position: vadd_spec(cam.position, step),
        target: vadd_spec(cam.target, step),
        up: cam.up,
        fovy: cam.fovy,
        projection: cam.projection,
    };
    assert(v3_bounded(stepped.position, COORD_MAX as int));
    assert(v3_bounded(stepped.target, COORD_MAX as int));
    assert(move_forward_spec(cam, CAMERA_MOVE_SPEED as int, false) == stepped);
    assert(keys_spec(cam, CameraMode::Free, i) == stepped);
    assert(movement_spec(cam, CameraMode::Free, i) == stepped);
    assert(vertical_spec(stepped, CameraMode::Free, i) == stepped);
    assert(stepped.wf());
    assert(zoom_spec(stepped, CameraMode::Free, i) == stepped);
}

/// Holding a zoom-step key across two consecutive frames fires the
/// discrete step exactly once. The edge detector reports a press on the
/// first frame only, the frame carrying the press applies one step, and
/// the following frame leaves the camera untouched.
pub proof fn lemma_zoom_step_fires_once(cam: Camera3D, i1: FrameInput, i2: FrameInput)
    requires
        cam.wf(),
        i1.wf(),
        i2.wf(),
        i1.key_pressed_kp_add == PressTracker::press_spec(false, true),
        i2.key_pressed_kp_add == PressTracker::press_spec(true, true),
        !i1.key_pressed_kp_subtract,
        !i2.key_pressed_kp_subtract,
        i1.mouse_wheel_move == 0,
        i2.mouse_wheel_move == 0,
        !i1.key_down_w && !i2.key_down_w,
        !i1.key_down_a && !i2.key_down_a,
        !i1.key_down_s && !i2.key_down_s,
        !i1.key_down_d && !i2.key_down_d,
        !i1.key_down_up && !i2.key_down_up,
        !i1.key_down_down && !i2.key_down_down,
        !i1.key_down_left && !i2.key_down_left,
        !i1.key_down_right && !i2.key_down_right,
        !i1.key_down_q && !i2.key_down_q,
        !i1.key_down_e && !i2.key_down_e,
        !i1.key_down_space && !i2.key_down_space,
        !i1.key_down_left_control && !i2.key_down_left_control,
        !i1.left_mouse_down && !i2.left_mouse_down,
        !i1.middle_mouse_down && !i2.middle_mouse_down,
        !i1.gamepad_available && !i2.gamepad_available,
    ensures
        update_camera_spec(cam, CameraMode::Free, i1) == move_to_target_spec(
            cam,
            -CAMERA_ZOOM_STEP as int,
        ),
        update_camera_spec(
            update_camera_spec(cam, CameraMode::Free, i1),
            CameraMode::Free,
            i2,
        ) == update_camera_spec(cam, CameraMode::Free, i1),
{
    let mid = move_to_target_spec(cam, -CAMERA_ZOOM_STEP as int);
    assert(mid.wf());
    lemma_inert_frame(mid, i2);
}

} // verus!
