//! 2D drawing: plane vectors, rectangles, and a canvas that records a
//! frame's worth of drawing commands for a backend to execute.

use crate::colors::Color;
use crate::DonkeyError;
use vstd::prelude::*;

verus! {

/// A point or extent in the plane, fixed-point coordinates.
#[derive(Clone, Copy, Debug, PartialEq, Eq, Structural)]
pub struct Vector2 {
    pub x: i64,
    pub y: i64,
}

impl Vector2 {
    pub fn new(x: i64, y: i64) -> (v: Vector2)
        ensures
            v == (Vector2 { x, y }),
    {
        Vector2 { x, y }
    }
}

/// An axis-aligned rectangle, fixed-point coordinates.
#[derive(Clone, Copy, Debug, PartialEq, Eq, Structural)]
pub struct Rectangle {
    pub x: i64,
    pub y: i64,
    pub width: i64,
    pub height: i64,
}

impl Rectangle {
    pub fn new(x: i64, y: i64, width: i64, height: i64) -> (r: Rectangle)
        ensures
            r == (Rectangle { x, y, width, height }),
    {
        Rectangle { x, y, width, height }
    }
}

/// One recorded drawing operation.
#[derive(Clone, Debug, PartialEq, Eq)]
pub enum DrawCommand {
    /// Fill the whole background with a color.
    Background(Color),
    /// A color-filled rectangle given by pixel position and size.
    Rect { x: usize, y: usize, width: usize, height: usize, color: Color },
    /// A color-filled rectangle given by plane vectors.
    RectV { position: Vector2, size: Vector2, color: Color },
    /// A run of text in the default font. The bytes are guaranteed free of
    /// interior NUL, so a backend may hand them to a C interface.
    Text { text: Vec<u8>, x: usize, y: usize, font_size: usize, color: Color },
}

/// A drawing surface that records the frame's commands in order; a
/// backend replays them between its begin/end bracket.
#[derive(Debug)]
pub struct Canvas {
    pub commands: Vec<DrawCommand>,
}

impl Canvas {
    /// An empty frame.
    pub fn new() -> (c: Canvas)
        ensures
            c.commands@ == Seq::<DrawCommand>::empty(),
    {
        Canvas { commands: Vec::new() }
    }

    /// Records a background fill.
    pub fn clear_background(&mut self, color: Color)
        ensures
            final(self).commands@ == old(self).commands@.push(DrawCommand::Background(color)),
    {
        self.commands.push(DrawCommand::Background(color));
    }

    /// Records a color-filled rectangle.
    pub fn draw_rectangle(&mut self, x: usize, y: usize, w: usize, h: usize, color: Color)
        ensures
            final(self).commands@ == old(self).commands@.push(
                DrawCommand::Rect { x, y, width: w, height: h, color },
            ),
    {
        self.commands.push(DrawCommand::Rect { x, y, width: w, height: h, color });
    }

    /// Records a run of text. Text destined for a native backend must be
    /// free of interior NUL bytes; text that is not is rejected with a
    /// typed error and the frame is left unchanged.
    pub fn draw_text(
        &mut self,
        text: Vec<u8>,
        x: usize,
        y: usize,
        font_size: usize,
        color: Color,
    ) -> (r: Result<(), DonkeyError>)
        ensures
            crate::nul_free(text@) ==> r is Ok && final(self).commands@ == old(
                self,
            ).commands@.push(DrawCommand::Text { text, x, y, font_size, color }),
            !crate::nul_free(text@) ==> r is Err && final(self).commands@ == old(self).commands@,
    {
        match crate::check_no_nul(text.as_slice()) {
            Ok(_) => {
                self.commands.push(DrawCommand::Text { text, x, y, font_size, color });
                Ok(())
            },
            Err(e) => Err(e),
        }
    }

    /// Records a color-filled rectangle with vector position and size.
    pub fn draw_rectangle_v(&mut self, position: Vector2, size: Vector2, color: Color)
        ensures
            final(self).commands@ == old(self).commands@.push(
                DrawCommand::RectV { position, size, color },
            ),
    {
        self.commands.push(DrawCommand::RectV { position, size, color });
    }
}

} // verus!
