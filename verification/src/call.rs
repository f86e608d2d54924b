//! The calls that cross the foreign boundary, as plain values.
//!
//! Coordinates, radii and angles are signed 16-bit, vertex counts and the
//! Bezier step count a C `int`, colors packed (see [`crate::color`]). A call
//! borrows the caller's point buffers for its own lifetime only.

use crate::text::{ends_in_only_nul, is_c_string};
use libc::c_int;
use vstd::prelude::*;

verus! {

/// One call of a native drawing function, with its arguments as the native
/// signature takes them. Each variant bears the name of its native function.
#[derive(Debug, PartialEq, Eq)]
pub enum NativeCall<'a> {
    PixelColor { x: i16, y: i16, color: u32 },
    HlineColor { x1: i16, x2: i16, y: i16, color: u32 },
    VlineColor { x: i16, y1: i16, y2: i16, color: u32 },
    RectangleColor { x1: i16, y1: i16, x2: i16, y2: i16, color: u32 },
    RoundedRectangleColor { x1: i16, y1: i16, x2: i16, y2: i16, rad: i16, color: u32 },
    BoxColor { x1: i16, y1: i16, x2: i16, y2: i16, color: u32 },
    RoundedBoxColor { x1: i16, y1: i16, x2: i16, y2: i16, rad: i16, color: u32 },
    LineColor { x1: i16, y1: i16, x2: i16, y2: i16, color: u32 },
    AalineColor { x1: i16, y1: i16, x2: i16, y2: i16, color: u32 },
    ThickLineColor { x1: i16, y1: i16, x2: i16, y2: i16, width: u8, color: u32 },
    CircleColor { x: i16, y: i16, rad: i16, color: u32 },
    AacircleColor { x: i16, y: i16, rad: i16, color: u32 },
    FilledCircleColor { x: i16, y: i16, rad: i16, color: u32 },
    ArcColor { x: i16, y: i16, rad: i16, start: i16, end: i16, color: u32 },
    EllipseColor { x: i16, y: i16, rx: i16, ry: i16, color: u32 },
    AaellipseColor { x: i16, y: i16, rx: i16, ry: i16, color: u32 },
    FilledEllipseColor { x: i16, y: i16, rx: i16, ry: i16, color: u32 },
    PieColor { x: i16, y: i16, rad: i16, start: i16, end: i16, color: u32 },
    FilledPieColor { x: i16, y: i16, rad: i16, start: i16, end: i16, color: u32 },
    TrigonColor { x1: i16, y1: i16, x2: i16, y2: i16, x3: i16, y3: i16, color: u32 },
    AatrigonColor { x1: i16, y1: i16, x2: i16, y2: i16, x3: i16, y3: i16, color: u32 },
    FilledTrigonColor { x1: i16, y1: i16, x2: i16, y2: i16, x3: i16, y3: i16, color: u32 },
    PolygonColor { vx: &'a [i16], vy: &'a [i16], n: c_int, color: u32 },
    AapolygonColor { vx: &'a [i16], vy: &'a [i16], n: c_int, color: u32 },
    FilledPolygonColor { vx: &'a [i16], vy: &'a [i16], n: c_int, color: u32 },
    BezierColor { vx: &'a [i16], vy: &'a [i16], n: c_int, s: c_int, color: u32 },
    /// `c` is the character as one native `char`.
    CharacterColor { x: i16, y: i16, c: u8, color: u32 },
    /// `text` ends in its only NUL byte.
    StringColor { x: i16, y: i16, text: Vec<u8>, color: u32 },
}

impl<'a> NativeCall<'a> {
    /// Whether the call keeps what the native signature relies on: a point
    /// count that is the length of both buffers, a text that ends in its only
    /// NUL byte.
    pub open spec fn well_formed(&self) -> bool {
        match *self {
            NativeCall::PolygonColor { vx, vy, n, .. }
            | NativeCall::AapolygonColor { vx, vy, n, .. }
            | NativeCall::FilledPolygonColor { vx, vy, n, .. }
            | NativeCall::BezierColor { vx, vy, n, .. } => n == vx@.len() && n == vy@.len(),
            NativeCall::StringColor { text, .. } => is_c_string(text@),
            _ => true,
        }
    }

    /// Tells whether the call is well formed.
    pub fn is_well_formed(&self) -> (ok: bool)
        ensures
            ok == self.well_formed(),
    {
        match self {
            NativeCall::PolygonColor { vx, vy, n, .. }
            | NativeCall::AapolygonColor { vx, vy, n, .. }
            | NativeCall::FilledPolygonColor { vx, vy, n, .. }
            | NativeCall::BezierColor { vx, vy, n, .. } => {
                *n >= 0 && *n as usize == vx.len() && vx.len() == vy.len()
            },
            NativeCall::StringColor { text, .. } => ends_in_only_nul(text.as_slice()),
            _ => true,
        }
    }
}

/// Whether `call` draws the text `text`, given with its final NUL byte, at
/// `(x, y)` in the packed color `color`.
pub open spec fn is_string_call(
    call: NativeCall<'_>,
    x: i16,
    y: i16,
    text: Seq<u8>,
    color: u32,
) -> bool {
    &&& call matches NativeCall::StringColor { x: cx, y: cy, text: ctext, color: ccolor }
    &&& cx == x
    &&& cy == y
    &&& ctext@ == text
    &&& ccolor == color
}

} // verus!
