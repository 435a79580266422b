//! The window: the owner of a frame in progress.
//!
//! A backend with a real rendering context replays what a `Window`
//! records. The bracketing rules of the drawing surface are part of the
//! contracts: 2D commands are accepted only between `begin_drawing` and
//! `end_drawing`, 3D commands only inside the `begin_mode3d` /
//! `end_mode3d` bracket, which must nest within the drawing bracket and
//! is not reentrant. Verified callers cannot get the order wrong.

use crate::camera3d::Camera3D;
use crate::colors::Color;
use crate::controller::{update_camera, update_camera_spec, FrameInput};
use crate::twod::{Canvas, DrawCommand, Vector2};
use crate::vector3::Vector3;
use crate::{nul_free, CameraMode, DonkeyError};
use vstd::prelude::*;

verus! {

/// One recorded 3D drawing operation.
#[derive(Clone, Copy, Debug, PartialEq, Eq, Structural)]
pub enum SceneCommand {
    Cube { center: Vector3, width: i64, height: i64, length: i64, color: Color },
    Sphere { center: Vector3, radius: i64, color: Color },
    Cylinder { start: Vector3, end: Vector3, radius: i64, color: Color },
}

/// A window records one frame at a time: the 2D draw list, the 3D scene
/// list, and the camera the scene is viewed through.
#[derive(Debug)]
pub struct Window {
    pub width: i64,
    pub height: i64,
    pub drawing: bool,
    pub mode3d: bool,
    pub canvas: Canvas,
    pub scene: Vec<SceneCommand>,
    pub camera: Option<Camera3D>,
}

impl Window {
    /// Opens a window. The title must be able to cross a C string
    /// boundary: a title with an interior NUL byte is rejected with a
    /// typed error.
    pub fn init(width: i64, height: i64, title: &[u8]) -> (r: Result<Window, DonkeyError>)
        ensures
            nul_free(title@) <==> r is Ok,
            r is Ok ==> {
                let w = r->Ok_0;
                &&& w.width == width
                &&& w.height == height
                &&& !w.drawing
                &&& !w.mode3d
                &&& w.canvas.commands@ == Seq::<DrawCommand>::empty()
                &&& w.scene@ == Seq::<SceneCommand>::empty()
                &&& w.camera is None
            },
    {
        match crate::check_no_nul(title) {
            Ok(_) => Ok(
                Window {
                    width,
                    height,
                    drawing: false,
                    mode3d: false,
                    canvas: Canvas::new(),
                    scene: Vec::new(),
                    camera: None,
                },
            ),
            Err(e) => Err(e),
        }
    }

    /// Opens the frame's drawing bracket and clears the recorded lists.
    pub fn begin_drawing(&mut self)
        requires
            !old(self).drawing,
        ensures
            final(self).drawing,
            !final(self).mode3d,
            final(self).canvas.commands@ == Seq::<DrawCommand>::empty(),
            final(self).scene@ == Seq::<SceneCommand>::empty(),
            final(self).camera is None,
            final(self).width == old(self).width,
            final(self).height == old(self).height,
    {
        self.drawing = true;
        self.mode3d = false;
        self.canvas = Canvas::new();
        self.scene = Vec::new();
        self.camera = None;
    }

    /// Closes the frame's drawing bracket; the recorded lists stay for a
    /// backend to replay.
    pub fn end_drawing(&mut self)
        requires
            old(self).drawing,
            !old(self).mode3d,
        ensures
            *final(self) == (Window { drawing: false, ..*old(self) }),
    {
        self.drawing = false;
    }

    /// Records a background fill.
    pub fn clear_background(&mut self, color: Color)
        requires
            old(self).drawing,
            !old(self).mode3d,
        ensures
            final(self).canvas.commands@ == old(self).canvas.commands@.push(
                DrawCommand::Background(color),
            ),
            final(self).drawing == old(self).drawing,
            final(self).mode3d == old(self).mode3d,
            final(self).scene == old(self).scene,
            final(self).camera == old(self).camera,
            final(self).width == old(self).width,
            final(self).height == old(self).height,
    {
        self.canvas.clear_background(color);
    }

    /// Records a color-filled rectangle.
    pub fn draw_rectangle(&mut self, x: usize, y: usize, w: usize, h: usize, color: Color)
        requires
            old(self).drawing,
            !old(self).mode3d,
        ensures
            final(self).canvas.commands@ == old(self).canvas.commands@.push(
                DrawCommand::Rect { x, y, width: w, height: h, color },
            ),
            final(self).drawing == old(self).drawing,
            final(self).mode3d == old(self).mode3d,
            final(self).scene == old(self).scene,
            final(self).camera == old(self).camera,
            final(self).width == old(self).width,
            final(self).height == old(self).height,
    {
        self.canvas.draw_rectangle(x, y, w, h, color);
    }

    /// Records a color-filled rectangle with vector position and size.
    pub fn draw_rectangle_v(&mut self, position: Vector2, size: Vector2, color: Color)
        requires
            old(self).drawing,
            !old(self).mode3d,
        ensures
            final(self).canvas.commands@ == old(self).canvas.commands@.push(
                DrawCommand::RectV { position, size, color },
            ),
            final(self).drawing == old(self).drawing,
            final(self).mode3d == old(self).mode3d,
            final(self).scene == old(self).scene,
            final(self).camera == old(self).camera,
            final(self).width == old(self).width,
            final(self).height == old(self).height,
    {
        self.canvas.draw_rectangle_v(position, size, color);
    }

    /// Records a run of text; text with an interior NUL byte is rejected
    /// and the frame is left unchanged.
    pub fn draw_text(
        &mut self,
        text: Vec<u8>,
        x: usize,
        y: usize,
        font_size: usize,
        color: Color,
    ) -> (r: Result<(), DonkeyError>)
        requires
            old(self).drawing,
            !old(self).mode3d,
        ensures
            nul_free(text@) ==> r is Ok && final(self).canvas.commands@ == old(
                self,
            ).canvas.commands@.push(DrawCommand::Text { text, x, y, font_size, color }),
            !nul_free(text@) ==> r is Err && final(self).canvas.commands@ == old(
                self,
            ).canvas.commands@,
            final(self).drawing == old(self).drawing,
            final(self).mode3d == old(self).mode3d,
            final(self).scene == old(self).scene,
            final(self).camera == old(self).camera,
            final(self).width == old(self).width,
            final(self).height == old(self).height,
    {
        self.canvas.draw_text(text, x, y, font_size, color)
    }

    /// Opens the 3D bracket, nested inside the drawing bracket, and fixes
    /// the camera the scene is viewed through.
    pub fn begin_mode3d(&mut self, camera: Camera3D)
        requires
            old(self).drawing,
            !old(self).mode3d,
        ensures
            *final(self) == (Window { mode3d: true, camera: Some(camera), ..*old(self) }),
    {
        self.mode3d = true;
        self.camera = Some(camera);
    }

    /// Closes the 3D bracket.
    pub fn end_mode3d(&mut self)
        requires
            old(self).mode3d,
        ensures
            *final(self) == (Window { mode3d: false, ..*old(self) }),
    {
        self.mode3d = false;
    }

    /// Records a cube.
    pub fn draw_cube(&mut self, center: Vector3, width: i64, height: i64, length: i64, color: Color)
        requires
            old(self).mode3d,
        ensures
            final(self).scene@ == old(self).scene@.push(
                SceneCommand::Cube { center, width, height, length, color },
            ),
            final(self).drawing == old(self).drawing,
            final(self).mode3d == old(self).mode3d,
            final(self).canvas.commands == old(self).canvas.commands,
            final(self).camera == old(self).camera,
            final(self).width == old(self).width,
            final(self).height == old(self).height,
    {
        self.scene.push(SceneCommand::Cube { center, width, height, length, color });
    }

    /// Records a sphere.
    pub fn draw_sphere(&mut self, center: Vector3, radius: i64, color: Color)
        requires
            old(self).mode3d,
        ensures
            final(self).scene@ == old(self).scene@.push(SceneCommand::Sphere { center, radius, color }),
            final(self).drawing == old(self).drawing,
            final(self).mode3d == old(self).mode3d,
            final(self).canvas.commands == old(self).canvas.commands,
            final(self).camera == old(self).camera,
            final(self).width == old(self).width,
            final(self).height == old(self).height,
    {
        self.scene.push(SceneCommand::Sphere { center, radius, color });
    }

    /// Records a cylinder of constant radius from `start` to `end`.
    pub fn draw_cylinder(&mut self, start: Vector3, end: Vector3, radius: i64, color: Color)
        requires
            old(self).mode3d,
        ensures
            final(self).scene@ == old(self).scene@.push(
                SceneCommand::Cylinder { start, end, radius, color },
            ),
            final(self).drawing == old(self).drawing,
            final(self).mode3d == old(self).mode3d,
            final(self).canvas.commands == old(self).canvas.commands,
            final(self).camera == old(self).camera,
            final(self).width == old(self).width,
            final(self).height == old(self).height,
    {
        self.scene.push(SceneCommand::Cylinder { start, end, radius, color });
    }

    /// Applies one frame of input to a camera: the controller, reachable
    /// from the window for callers that keep one handle for everything.
    pub fn update_camera(&self, camera: &mut Camera3D, mode: CameraMode, input: &FrameInput)
        requires
            old(camera).wf(),
            input.wf(),
        ensures
            *final(camera) == update_camera_spec(*old(camera), mode, *input),
            final(camera).wf(),
    {
        update_camera(camera, mode, input);
    }
}

} // verus!
