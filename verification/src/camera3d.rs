//! The camera: position, target, up vector, field of view and projection
//! mode, with the in-place rotation and movement primitives the update
//! controller is built from.
//!
//! Every primitive is guarded: a step that would push a coordinate beyond
//! the representable range, or (under a locked view) carry the view past
//! vertical, leaves the camera unchanged instead.

use crate::fixed::SCALE;
use crate::matrix::{rotate_spec, MatrixRotate};
use crate::vector3::{
    cross_spec, dot_spec, normalize_spec, transform_spec, v3_bounded, vadd_spec, vscale_spec,
    vsub_spec, Vector3, Vector3Add, Vector3CrossProduct, Vector3Distance, Vector3DotProduct,
    Vector3Normalize, Vector3Scale, Vector3Subtract, Vector3Transform, COORD_MAX,
};
use crate::fixed::sqrt_floor;
use crate::vector3::norm2;
use vstd::prelude::*;

verus! {

/// Largest single movement or zoom step a primitive accepts
/// (a thousand whole units).
pub const STEP_MAX: i64 = 1_000_000_000;

#[derive(Clone, Copy, Debug, PartialEq, Eq, Structural)]
pub enum CameraProjection {
    Perspective,
    Orthographic,
}

#[derive(Clone, Copy, Debug, PartialEq, Eq, Structural)]
pub struct Camera3D {
    pub position: Vector3,
    pub target: Vector3,
    pub up: Vector3,
    /// Field of view, fixed-point degrees.
    pub fovy: i64,
    pub projection: CameraProjection,
}

/// The direction the camera looks along, as a unit vector.
pub open spec fn forward_spec(cam: Camera3D) -> Vector3 {
    normalize_spec(vsub_spec(cam.target, cam.position))
}

/// The camera's up direction, as a unit vector.
pub open spec fn up_spec(cam: Camera3D) -> Vector3 {
    normalize_spec(cam.up)
}

/// The camera's right direction: the normalized cross product of forward
/// and up.
pub open spec fn right_spec(cam: Camera3D) -> Vector3 {
    normalize_spec(cross_spec(forward_spec(cam), up_spec(cam)))
}

/// A direction projected onto the horizontal plane and rescaled to unit
/// length.
pub open spec fn world_plane_spec(v: Vector3) -> Vector3 {
    normalize_spec(Vector3 { x: v.x, y: 0, z: v.z })
}

impl Camera3D {
    /// All coordinates of the camera are in the representable range.
    pub open spec fn wf(self) -> bool {
        &&& v3_bounded(self.position, COORD_MAX as int)
        &&& v3_bounded(self.target, COORD_MAX as int)
        &&& v3_bounded(self.up, COORD_MAX as int)
    }

    pub fn new(
        position: Vector3,
        target: Vector3,
        up: Vector3,
        fovy: i64,
        projection: CameraProjection,
    ) -> (cam: Camera3D)
        ensures
            cam == (Camera3D { position, target, up, fovy, projection }),
    {
        Camera3D { position, target, up, fovy, projection }
    }
}

/// True exactly when every coordinate of `v` is in the representable
/// range.
pub(crate) fn v3_fits(v: Vector3) -> (b: bool)
    ensures
        b == v3_bounded(v, COORD_MAX as int),
{
    -COORD_MAX <= v.x && v.x <= COORD_MAX && -COORD_MAX <= v.y && v.y <= COORD_MAX && -COORD_MAX
        <= v.z && v.z <= COORD_MAX
}

/// The camera's forward unit vector.
fn camera_forward(cam: &Camera3D) -> (f: Vector3)
    requires
        cam.wf(),
    ensures
        f == forward_spec(*cam),
        v3_bounded(f, SCALE as int),
{
    Vector3Normalize(Vector3Subtract(cam.target, cam.position))
}

/// The camera's up unit vector.
fn camera_up(cam: &Camera3D) -> (u: Vector3)
    requires
        cam.wf(),
    ensures
        u == up_spec(*cam),
        v3_bounded(u, SCALE as int),
{
    Vector3Normalize(cam.up)
}

/// The camera's right unit vector.
fn camera_right(cam: &Camera3D) -> (r: Vector3)
    requires
        cam.wf(),
    ensures
        r == right_spec(*cam),
        v3_bounded(r, SCALE as int),
{
    let f = camera_forward(cam);
    let u = camera_up(cam);
    Vector3Normalize(Vector3CrossProduct(f, u))
}

/// Moving forward: both position and target advance along the (optionally
/// horizontal-plane) forward direction; out-of-range results are ignored.
pub open spec fn move_forward_spec(
    cam: Camera3D,
    distance: int,
    move_in_world_plane: bool,
) -> Camera3D {
    let f0 = forward_spec(cam);
    let f = if move_in_world_plane {
        world_plane_spec(f0)
    } else {
        f0
    };
    let step = vscale_spec(f, distance);
    let p = vadd_spec(cam.position, step);
    let t = vadd_spec(cam.target, step);
    if v3_bounded(p, COORD_MAX as int) && v3_bounded(t, COORD_MAX as int) {
        Camera3D { position: p, target: t, up: cam.up, fovy: cam.fovy, projection: cam.projection }
    } else {
        cam
    }
}

/// Moving up: both position and target advance along the up direction;
/// out-of-range results are ignored.
pub open spec fn move_up_spec(cam: Camera3D, distance: int) -> Camera3D {
    let u = up_spec(cam);
    let step = vscale_spec(u, distance);
    let p = vadd_spec(cam.position, step);
    let t = vadd_spec(cam.target, step);
    if v3_bounded(p, COORD_MAX as int) && v3_bounded(t, COORD_MAX as int) {
        Camera3D { position: p, target: t, up: cam.up, fovy: cam.fovy, projection: cam.projection }
    } else {
        cam
    }
}

/// Moving right: both position and target advance along the (optionally
/// horizontal-plane) right direction; out-of-range results are ignored.
pub open spec fn move_right_spec(
    cam: Camera3D,
    distance: int,
    move_in_world_plane: bool,
) -> Camera3D {
    let r0 = right_spec(cam);
    let r = if move_in_world_plane {
        world_plane_spec(r0)
    } else {
        r0
    };
    let step = vscale_spec(r, distance);
    let p = vadd_spec(cam.position, step);
    let t = vadd_spec(cam.target, step);
    if v3_bounded(p, COORD_MAX as int) && v3_bounded(t, COORD_MAX as int) {
        Camera3D { position: p, target: t, up: cam.up, fovy: cam.fovy, projection: cam.projection }
    } else {
        cam
    }
}

/// Zooming: the position is replaced so that its distance to the target
/// changes by `delta`; the distance is floored just above zero, a zero
/// request is a no-op, and out-of-range results are ignored.
pub open spec fn move_to_target_spec(cam: Camera3D, delta: int) -> Camera3D {
    if delta == 0 {
        cam
    } else {
        let dist0 = sqrt_floor(norm2(vsub_spec(cam.position, cam.target)));
        let dist1 = dist0 + delta;
        let dist = if dist1 <= 0 {
            1000int
        } else {
            dist1
        };
        let f = forward_spec(cam);
        let p = vadd_spec(cam.target, vscale_spec(f, -dist));
        if v3_bounded(p, COORD_MAX as int) {
            Camera3D {
                position: p,
                target: cam.target,
                up: cam.up,
                fovy: cam.fovy,
                projection: cam.projection,
            }
        } else {
            cam
        }
    }
}

/// Yaw: the view vector turns about the camera's up axis; the pivot is the
/// target (moving the position) or the position (moving the target).
/// Out-of-range results are ignored.
pub open spec fn yaw_spec(cam: Camera3D, angle: int, rotate_around_target: bool) -> Camera3D {
    let u = up_spec(cam);
    let view = vsub_spec(cam.target, cam.position);
    let m = rotate_spec(u, angle);
    let v2 = transform_spec(view, m);
    if rotate_around_target {
        let p = vsub_spec(cam.target, v2);
        if v3_bounded(p, COORD_MAX as int) {
            Camera3D {
                position: p,
                target: cam.target,
                up: cam.up,
                fovy: cam.fovy,
                projection: cam.projection,
            }
        } else {
            cam
        }
    } else {
        let t = vadd_spec(cam.position, v2);
        if v3_bounded(t, COORD_MAX as int) {
            Camera3D {
                position: cam.position,
                target: t,
                up: cam.up,
                fovy: cam.fovy,
                projection: cam.projection,
            }
        } else {
            cam
        }
    }
}

/// Pitch: the view vector turns about the camera's right axis. With a
/// locked view a rotation that would carry the view past vertical is
/// skipped; with `rotate_up` the up vector turns as well. Out-of-range
/// results are ignored.
pub open spec fn pitch_spec(
    cam: Camera3D,
    angle: int,
    lock_view: bool,
    rotate_around_target: bool,
    rotate_up: bool,
) -> Camera3D {
    let u = up_spec(cam);
    let view = vsub_spec(cam.target, cam.position);
    let r = right_spec(cam);
    let m = rotate_spec(r, angle);
    let v2 = transform_spec(view, m);
    let ok_lock = !lock_view || dot_spec(v2, cross_spec(u, r)) > 0;
    if ok_lock {
        let new_pos = if rotate_around_target {
            vsub_spec(cam.target, v2)
        } else {
            cam.position
        };
        let new_tgt = if rotate_around_target {
            cam.target
        } else {
            vadd_spec(cam.position, v2)
        };
        let new_up = if rotate_up {
            transform_spec(cam.up, m)
        } else {
            cam.up
        };
        if v3_bounded(new_pos, COORD_MAX as int) && v3_bounded(new_tgt, COORD_MAX as int)
            && v3_bounded(new_up, COORD_MAX as int) {
            Camera3D {
                position: new_pos,
                target: new_tgt,
                up: new_up,
                fovy: cam.fovy,
                projection: cam.projection,
            }
        } else {
            cam
        }
    } else {
        cam
    }
}

/// Roll: the up vector turns about the forward axis. Out-of-range results
/// are ignored.
pub open spec fn roll_spec(cam: Camera3D, angle: int) -> Camera3D {
    let f = forward_spec(cam);
    let m = rotate_spec(f, angle);
    let new_up = transform_spec(cam.up, m);
    if v3_bounded(new_up, COORD_MAX as int) {
        Camera3D {
            position: cam.position,
            target: cam.target,
            up: new_up,
            fovy: cam.fovy,
            projection: cam.projection,
        }
    } else {
        cam
    }
}

impl Camera3D {
    /// Moves the camera forward (or backward for a negative distance).
    pub fn move_forward(&mut self, distance: i64, move_in_world_plane: bool)
        requires
            old(self).wf(),
            -STEP_MAX <= distance <= STEP_MAX,
        ensures
            *final(self) == move_forward_spec(*old(self), distance as int, move_in_world_plane),
            final(self).wf(),
    {
        let cam = *self;
        let f0 = camera_forward(&cam);
        let f = if move_in_world_plane {
            Vector3Normalize(Vector3::new(f0.x, 0, f0.z))
        } else {
            f0
        };
        let step = Vector3Scale(f, distance);
        let p = Vector3Add(cam.position, step);
        let t = Vector3Add(cam.target, step);
        if v3_fits(p) && v3_fits(t) {
            self.position = p;
            self.target = t;
        }
    }

    /// Moves the camera up (or down for a negative distance).
    pub fn move_up(&mut self, distance: i64)
        requires
            old(self).wf(),
            -STEP_MAX <= distance <= STEP_MAX,
        ensures
            *final(self) == move_up_spec(*old(self), distance as int),
            final(self).wf(),
    {
        let cam = *self;
        let u = camera_up(&cam);
        let step = Vector3Scale(u, distance);
        let p = Vector3Add(cam.position, step);
        let t = Vector3Add(cam.target, step);
        if v3_fits(p) && v3_fits(t) {
            self.position = p;
            self.target = t;
        }
    }

    /// Moves the camera right (or left for a negative distance).
    pub fn move_right(&mut self, distance: i64, move_in_world_plane: bool)
        requires
            old(self).wf(),
            -STEP_MAX <= distance <= STEP_MAX,
        ensures
            *final(self) == move_right_spec(*old(self), distance as int, move_in_world_plane),
            final(self).wf(),
    {
        let cam = *self;
        let r0 = camera_right(&cam);
        let r = if move_in_world_plane {
            Vector3Normalize(Vector3::new(r0.x, 0, r0.z))
        } else {
            r0
        };
        let step = Vector3Scale(r, distance);
        let p = Vector3Add(cam.position, step);
        let t = Vector3Add(cam.target, step);
        if v3_fits(p) && v3_fits(t) {
            self.position = p;
            self.target = t;
        }
    }

    /// Moves the camera toward (negative `delta`) or away from its target.
    pub fn move_to_target(&mut self, delta: i64)
        requires
            old(self).wf(),
            -STEP_MAX <= delta <= STEP_MAX,
        ensures
            *final(self) == move_to_target_spec(*old(self), delta as int),
            final(self).wf(),
    {
        if delta == 0 {
            return ;
        }
        let cam = *self;
        let dist0 = Vector3Distance(cam.position, cam.target);
        let dist1 = dist0 + delta;
        let dist: i64 = if dist1 <= 0 {
            1000
        } else {
            dist1
        };
        let f = camera_forward(&cam);
        let step = Vector3Scale(f, -dist);
        let p = Vector3Add(cam.target, step);
        if v3_fits(p) {
            self.position = p;
        }
    }

    /// Turns the view about the up axis.
    pub fn yaw(&mut self, angle: i64, rotate_around_target: bool)
        requires
            old(self).wf(),
            -SCALE <= angle <= SCALE,
        ensures
            *final(self) == yaw_spec(*old(self), angle as int, rotate_around_target),
            final(self).wf(),
    {
        let cam = *self;
        let u = camera_up(&cam);
        let view = Vector3Subtract(cam.target, cam.position);
        let m = MatrixRotate(u, angle);
        let v2 = Vector3Transform(view, m);
        if rotate_around_target {
            let p = Vector3Subtract(cam.target, v2);
            if v3_fits(p) {
                self.position = p;
            }
        } else {
            let t = Vector3Add(cam.position, v2);
            if v3_fits(t) {
                self.target = t;
            }
        }
    }

    /// Turns the view about the right axis.
    pub fn pitch(&mut self, angle: i64, lock_view: bool, rotate_around_target: bool, rotate_up: bool)
        requires
            old(self).wf(),
            -SCALE <= angle <= SCALE,
        ensures
            *final(self) == pitch_spec(
                *old(self),
                angle as int,
                lock_view,
                rotate_around_target,
                rotate_up,
            ),
            final(self).wf(),
    {
        let cam = *self;
        let u = camera_up(&cam);
        let view = Vector3Subtract(cam.target, cam.position);
        let r = camera_right(&cam);
        let m = MatrixRotate(r, angle);
        let v2 = Vector3Transform(view, m);
        let ok_lock = if lock_view {
            let w = Vector3CrossProduct(u, r);
            let dp = Vector3DotProduct(v2, w);
            dp > 0
        } else {
            true
        };
        if ok_lock {
            let new_pos = if rotate_around_target {
                Vector3Subtract(cam.target, v2)
            } else {
                cam.position
            };
            let new_tgt = if rotate_around_target {
                cam.target
            } else {
                Vector3Add(cam.position, v2)
            };
            let new_up = if rotate_up {
                Vector3Transform(cam.up, m)
            } else {
                cam.up
            };
            if v3_fits(new_pos) && v3_fits(new_tgt) && v3_fits(new_up) {
                self.position = new_pos;
                self.target = new_tgt;
                self.up = new_up;
            }
        }
    }

    /// Turns the up vector about the forward axis.
    pub fn roll(&mut self, angle: i64)
        requires
            old(self).wf(),
            -SCALE <= angle <= SCALE,
        ensures
            *final(self) == roll_spec(*old(self), angle as int),
            final(self).wf(),
    {
        let cam = *self;
        let f = camera_forward(&cam);
        let m = MatrixRotate(f, angle);
        let new_up = Vector3Transform(cam.up, m);
        if v3_fits(new_up) {
            self.up = new_up;
        }
    }
}

} // verus!
