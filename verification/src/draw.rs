//! Drawing commands: what a panel asks of its surface.
//!
//! Lengths and positions are whole millipixels, a thousandth of a device
//! pixel each, so that a fractional pixel ratio keeps its exact geometry.
//! Opacity is in thousandths as well.

use vstd::prelude::*;

verus! {

/// Millipixels in one device pixel, and thousandths in a whole.
pub const SCALE: u32 = 1_000;

/// A rectangle, in exact numbers.
pub struct Area {
    /// Distance of the left edge from the left edge of the surface.
    pub x: int,
    /// Distance of the top edge from the top edge of the surface.
    pub y: int,
    /// Extent to the right.
    pub width: int,
    /// Extent downwards; a negative height reaches upwards from `y`.
    pub height: int,
}

/// A rectangle on a surface, in millipixels.
#[derive(Clone, Copy, Debug, PartialEq, Eq, Structural)]
pub struct Rect {
    /// Distance of the left edge from the left edge of the surface.
    pub x: i64,
    /// Distance of the top edge from the top edge of the surface.
    pub y: i64,
    /// Extent to the right.
    pub width: i64,
    /// Extent downwards; a negative height reaches upwards from `y`.
    pub height: i64,
}

impl View for Rect {
    type V = Area;

    open spec fn view(&self) -> Area {
        Area { x: self.x as int, y: self.y as int, width: self.width as int, height: self.height as int }
    }
}

/// A drawing command, in exact numbers and plain text.
pub enum DrawOp {
    /// Give the surface this many device pixels each way.
    Resize { width: int, height: int },
    /// Give the surface's element this style text.
    Style { css: Seq<char> },
    /// Use this font for text.
    Font { font: Seq<char> },
    /// Place text by this baseline.
    TextBaseline { baseline: Seq<char> },
    /// Fill with this colour from now on.
    FillStyle { color: Seq<char> },
    /// Draw at this opacity from now on, in thousandths.
    GlobalAlpha { permille: int },
    /// Fill a rectangle.
    FillRect { area: Area },
    /// Write text with its top left corner at a point.
    FillText { text: Seq<char>, x: int, y: int },
    /// Copy a rectangle of the surface onto another rectangle of it.
    CopyRect { source: Area, target: Area },
}

/// A drawing command for the host to carry out on a panel's surface.
#[derive(Debug, PartialEq, Eq)]
pub enum DrawCommand {
    /// Give the surface this many device pixels each way.
    Resize { width: u32, height: u32 },
    /// Give the surface's element this style text.
    Style { css: String },
    /// Use this font for text.
    Font { font: String },
    /// Place text by this baseline.
    TextBaseline { baseline: String },
    /// Fill with this colour from now on.
    FillStyle { color: String },
    /// Draw at this opacity from now on, in thousandths.
    GlobalAlpha { permille: u32 },
    /// Fill a rectangle.
    FillRect { area: Rect },
    /// Write text with its top left corner at a point.
    FillText { text: String, x: i64, y: i64 },
    /// Copy a rectangle of the surface onto another rectangle of it.
    CopyRect { source: Rect, target: Rect },
}

impl View for DrawCommand {
    type V = DrawOp;

    open spec fn view(&self) -> DrawOp {
        match *self {
            DrawCommand::Resize { width, height } => DrawOp::Resize { width: width as int, height: height as int },
            DrawCommand::Style { css } => DrawOp::Style { css: css@ },
            DrawCommand::Font { font } => DrawOp::Font { font: font@ },
            DrawCommand::TextBaseline { baseline } => DrawOp::TextBaseline { baseline: baseline@ },
            DrawCommand::FillStyle { color } => DrawOp::FillStyle { color: color@ },
            DrawCommand::GlobalAlpha { permille } => DrawOp::GlobalAlpha { permille: permille as int },
            DrawCommand::FillRect { area } => DrawOp::FillRect { area: area@ },
            DrawCommand::FillText { text, x, y } => DrawOp::FillText { text: text@, x: x as int, y: y as int },
            DrawCommand::CopyRect { source, target } => DrawOp::CopyRect { source: source@, target: target@ },
        }
    }
}

/// What a list of commands says, command by command.
pub open spec fn ops(commands: Seq<DrawCommand>) -> Seq<DrawOp> {
    commands.map_values(|command: DrawCommand| command@)
}

} // verus!
