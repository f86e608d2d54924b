//! From typed arguments to the native call: one function per primitive.
//!
//! Each function normalizes the color, brings every other argument into the
//! form and width of the native signature, and returns the one call that
//! draws the primitive. Nothing is drawn here.

use crate::call::{is_string_call, NativeCall};
use crate::color::{pack_rgba, ToColor};
use crate::points::{is_point_buffer, point_count};
use crate::text::{native_char, native_char_of, nul_terminated};
use libc::c_int;
use vstd::prelude::*;
use vstd::string::StringSliceAdditionalSpecFns;

verus! {

/// The call that draws the pixel at `(x, y)`.
pub fn pixel<'a, C: ToColor>(x: i16, y: i16, color: C) -> (call: NativeCall<'a>)
    requires
        color.is_color(),
    ensures
        call == (NativeCall::PixelColor { x, y, color: pack_rgba(color.channels()) }),
{
    NativeCall::PixelColor { x, y, color: color.as_u32() }
}

/// The call that draws the horizontal line from `(x1, y)` to `(x2, y)`.
pub fn hline<'a, C: ToColor>(x1: i16, x2: i16, y: i16, color: C) -> (call: NativeCall<'a>)
    requires
        color.is_color(),
    ensures
        call == (NativeCall::HlineColor { x1, x2, y, color: pack_rgba(color.channels()) }),
{
    NativeCall::HlineColor { x1, x2, y, color: color.as_u32() }
}

/// The call that draws the vertical line from `(x, y1)` to `(x, y2)`.
pub fn vline<'a, C: ToColor>(x: i16, y1: i16, y2: i16, color: C) -> (call: NativeCall<'a>)
    requires
        color.is_color(),
    ensures
        call == (NativeCall::VlineColor { x, y1, y2, color: pack_rgba(color.channels()) }),
{
    NativeCall::VlineColor { x, y1, y2, color: color.as_u32() }
}

/// The call that draws the outline of the rectangle with the opposite corners
/// `(x1, y1)` and `(x2, y2)`.
pub fn rectangle<'a, C: ToColor>(
    x1: i16,
    y1: i16,
    x2: i16,
    y2: i16,
    color: C,
) -> (call: NativeCall<'a>)
    requires
        color.is_color(),
    ensures
        call == (NativeCall::RectangleColor { x1, y1, x2, y2, color: pack_rgba(color.channels()) }),
{
    NativeCall::RectangleColor { x1, y1, x2, y2, color: color.as_u32() }
}

/// The call that draws the outline of the rectangle with the opposite corners
/// `(x1, y1)` and `(x2, y2)`, its corners rounded with radius `rad`.
pub fn rounded_rectangle<'a, C: ToColor>(
    x1: i16,
    y1: i16,
    x2: i16,
    y2: i16,
    rad: i16,
    color: C,
) -> (call: NativeCall<'a>)
    requires
        color.is_color(),
    ensures
        call == (NativeCall::RoundedRectangleColor {
            x1,
            y1,
            x2,
            y2,
            rad,
            color: pack_rgba(color.channels()),
        }),
{
    NativeCall::RoundedRectangleColor { x1, y1, x2, y2, rad, color: color.as_u32() }
}

/// The call that draws the filled rectangle with the opposite corners
/// `(x1, y1)` and `(x2, y2)`.
pub fn box_<'a, C: ToColor>(x1: i16, y1: i16, x2: i16, y2: i16, color: C) -> (call: NativeCall<'a>)
    requires
        color.is_color(),
    ensures
        call == (NativeCall::BoxColor { x1, y1, x2, y2, color: pack_rgba(color.channels()) }),
{
    NativeCall::BoxColor { x1, y1, x2, y2, color: color.as_u32() }
}

/// The call that draws the filled rectangle with the opposite corners
/// `(x1, y1)` and `(x2, y2)`, its corners rounded with radius `rad`.
pub fn rounded_box<'a, C: ToColor>(
    x1: i16,
    y1: i16,
    x2: i16,
    y2: i16,
    rad: i16,
    color: C,
) -> (call: NativeCall<'a>)
    requires
        color.is_color(),
    ensures
        call == (NativeCall::RoundedBoxColor {
            x1,
            y1,
            x2,
            y2,
            rad,
            color: pack_rgba(color.channels()),
        }),
{
    NativeCall::RoundedBoxColor { x1, y1, x2, y2, rad, color: color.as_u32() }
}

/// The call that draws the line from `(x1, y1)` to `(x2, y2)`.
pub fn line<'a, C: ToColor>(x1: i16, y1: i16, x2: i16, y2: i16, color: C) -> (call: NativeCall<'a>)
    requires
        color.is_color(),
    ensures
        call == (NativeCall::LineColor { x1, y1, x2, y2, color: pack_rgba(color.channels()) }),
{
    NativeCall::LineColor { x1, y1, x2, y2, color: color.as_u32() }
}

/// The call that draws the anti-aliased line from `(x1, y1)` to `(x2, y2)`.
pub fn aa_line<'a, C: ToColor>(
    x1: i16,
    y1: i16,
    x2: i16,
    y2: i16,
    color: C,
) -> (call: NativeCall<'a>)
    requires
        color.is_color(),
    ensures
        call == (NativeCall::AalineColor { x1, y1, x2, y2, color: pack_rgba(color.channels()) }),
{
    NativeCall::AalineColor { x1, y1, x2, y2, color: color.as_u32() }
}

/// The call that draws the line from `(x1, y1)` to `(x2, y2)`, `width` pixels
/// thick.
pub fn thick_line<'a, C: ToColor>(
    x1: i16,
    y1: i16,
    x2: i16,
    y2: i16,
    width: u8,
    color: C,
) -> (call: NativeCall<'a>)
    requires
        color.is_color(),
    ensures
        call == (NativeCall::ThickLineColor {
            x1,
            y1,
            x2,
            y2,
            width,
            color: pack_rgba(color.channels()),
        }),
{
    NativeCall::ThickLineColor { x1, y1, x2, y2, width, color: color.as_u32() }
}

/// The call that draws the outline of the circle around `(x, y)` with radius
/// `rad`.
pub fn circle<'a, C: ToColor>(x: i16, y: i16, rad: i16, color: C) -> (call: NativeCall<'a>)
    requires
        color.is_color(),
    ensures
        call == (NativeCall::CircleColor { x, y, rad, color: pack_rgba(color.channels()) }),
{
    NativeCall::CircleColor { x, y, rad, color: color.as_u32() }
}

/// The call that draws the anti-aliased outline of the circle around `(x, y)`
/// with radius `rad`.
pub fn aa_circle<'a, C: ToColor>(x: i16, y: i16, rad: i16, color: C) -> (call: NativeCall<'a>)
    requires
        color.is_color(),
    ensures
        call == (NativeCall::AacircleColor { x, y, rad, color: pack_rgba(color.channels()) }),
{
    NativeCall::AacircleColor { x, y, rad, color: color.as_u32() }
}

/// The call that draws the filled circle around `(x, y)` with radius `rad`.
pub fn filled_circle<'a, C: ToColor>(x: i16, y: i16, rad: i16, color: C) -> (call: NativeCall<'a>)
    requires
        color.is_color(),
    ensures
        call == (NativeCall::FilledCircleColor { x, y, rad, color: pack_rgba(color.channels()) }),
{
    NativeCall::FilledCircleColor { x, y, rad, color: color.as_u32() }
}

/// The call that draws the arc of the circle around `(x, y)` with radius
/// `rad`, from `start` to `end` degrees.
pub fn arc<'a, C: ToColor>(
    x: i16,
    y: i16,
    rad: i16,
    start: i16,
    end: i16,
    color: C,
) -> (call: NativeCall<'a>)
    requires
        color.is_color(),
    ensures
        call == (NativeCall::ArcColor {
            x,
            y,
            rad,
            start,
            end,
            color: pack_rgba(color.channels()),
        }),
{
    NativeCall::ArcColor { x, y, rad, start, end, color: color.as_u32() }
}

/// The call that draws the outline of the ellipse around `(x, y)` with the
/// radii `rx` and `ry`.
pub fn ellipse<'a, C: ToColor>(x: i16, y: i16, rx: i16, ry: i16, color: C) -> (call: NativeCall<'a>)
    requires
        color.is_color(),
    ensures
        call == (NativeCall::EllipseColor { x, y, rx, ry, color: pack_rgba(color.channels()) }),
{
    NativeCall::EllipseColor { x, y, rx, ry, color: color.as_u32() }
}

/// The call that draws the anti-aliased outline of the ellipse around
/// `(x, y)` with the radii `rx` and `ry`.
pub fn aa_ellipse<'a, C: ToColor>(
    x: i16,
    y: i16,
    rx: i16,
    ry: i16,
    color: C,
) -> (call: NativeCall<'a>)
    requires
        color.is_color(),
    ensures
        call == (NativeCall::AaellipseColor { x, y, rx, ry, color: pack_rgba(color.channels()) }),
{
    NativeCall::AaellipseColor { x, y, rx, ry, color: color.as_u32() }
}

/// The call that draws the filled ellipse around `(x, y)` with the radii `rx`
/// and `ry`.
pub fn filled_ellipse<'a, C: ToColor>(
    x: i16,
    y: i16,
    rx: i16,
    ry: i16,
    color: C,
) -> (call: NativeCall<'a>)
    requires
        color.is_color(),
    ensures
        call == (NativeCall::FilledEllipseColor {
            x,
            y,
            rx,
            ry,
            color: pack_rgba(color.channels()),
        }),
{
    NativeCall::FilledEllipseColor { x, y, rx, ry, color: color.as_u32() }
}

/// The call that draws the outline of the pie slice around `(x, y)` with
/// radius `rad`, from `start` to `end` degrees.
pub fn pie<'a, C: ToColor>(
    x: i16,
    y: i16,
    rad: i16,
    start: i16,
    end: i16,
    color: C,
) -> (call: NativeCall<'a>)
    requires
        color.is_color(),
    ensures
        call == (NativeCall::PieColor {
            x,
            y,
            rad,
            start,
            end,
            color: pack_rgba(color.channels()),
        }),
{
    NativeCall::PieColor { x, y, rad, start, end, color: color.as_u32() }
}

/// The call that draws the filled pie slice around `(x, y)` with radius
/// `rad`, from `start` to `end` degrees.
pub fn filled_pie<'a, C: ToColor>(
    x: i16,
    y: i16,
    rad: i16,
    start: i16,
    end: i16,
    color: C,
) -> (call: NativeCall<'a>)
    requires
        color.is_color(),
    ensures
        call == (NativeCall::FilledPieColor {
            x,
            y,
            rad,
            start,
            end,
            color: pack_rgba(color.channels()),
        }),
{
    NativeCall::FilledPieColor { x, y, rad, start, end, color: color.as_u32() }
}

/// The call that draws the outline of the triangle `(x1, y1)`, `(x2, y2)`,
/// `(x3, y3)`.
pub fn trigon<'a, C: ToColor>(
    x1: i16,
    y1: i16,
    x2: i16,
    y2: i16,
    x3: i16,
    y3: i16,
    color: C,
) -> (call: NativeCall<'a>)
    requires
        color.is_color(),
    ensures
        call == (NativeCall::TrigonColor {
            x1,
            y1,
            x2,
            y2,
            x3,
            y3,
            color: pack_rgba(color.channels()),
        }),
{
    NativeCall::TrigonColor { x1, y1, x2, y2, x3, y3, color: color.as_u32() }
}

/// The call that draws the anti-aliased outline of the triangle `(x1, y1)`,
/// `(x2, y2)`, `(x3, y3)`.
pub fn aa_trigon<'a, C: ToColor>(
    x1: i16,
    y1: i16,
    x2: i16,
    y2: i16,
    x3: i16,
    y3: i16,
    color: C,
) -> (call: NativeCall<'a>)
    requires
        color.is_color(),
    ensures
        call == (NativeCall::AatrigonColor {
            x1,
            y1,
            x2,
            y2,
            x3,
            y3,
            color: pack_rgba(color.channels()),
        }),
{
    NativeCall::AatrigonColor { x1, y1, x2, y2, x3, y3, color: color.as_u32() }
}

/// The call that draws the filled triangle `(x1, y1)`, `(x2, y2)`,
/// `(x3, y3)`.
pub fn filled_trigon<'a, C: ToColor>(
    x1: i16,
    y1: i16,
    x2: i16,
    y2: i16,
    x3: i16,
    y3: i16,
    color: C,
) -> (call: NativeCall<'a>)
    requires
        color.is_color(),
    ensures
        call == (NativeCall::FilledTrigonColor {
            x1,
            y1,
            x2,
            y2,
            x3,
            y3,
            color: pack_rgba(color.channels()),
        }),
{
    NativeCall::FilledTrigonColor { x1, y1, x2, y2, x3, y3, color: color.as_u32() }
}

/// The call that draws the outline of the polygon with the vertices
/// `(vx[i], vy[i])`.
pub fn polygon<'a, C: ToColor>(vx: &'a [i16], vy: &'a [i16], color: C) -> (call: NativeCall<'a>)
    requires
        is_point_buffer(vx@, vy@),
        color.is_color(),
    ensures
        call == (NativeCall::PolygonColor {
            vx,
            vy,
            n: vx@.len() as c_int,
            color: pack_rgba(color.channels()),
        }),
        call.well_formed(),
{
    let n: c_int = point_count(vx, vy).unwrap();
    NativeCall::PolygonColor { vx, vy, n, color: color.as_u32() }
}

/// The call that draws the anti-aliased outline of the polygon with the
/// vertices `(vx[i], vy[i])`.
pub fn aa_polygon<'a, C: ToColor>(vx: &'a [i16], vy: &'a [i16], color: C) -> (call: NativeCall<'a>)
    requires
        is_point_buffer(vx@, vy@),
        color.is_color(),
    ensures
        call == (NativeCall::AapolygonColor {
            vx,
            vy,
            n: vx@.len() as c_int,
            color: pack_rgba(color.channels()),
        }),
        call.well_formed(),
{
    let n: c_int = point_count(vx, vy).unwrap();
    NativeCall::AapolygonColor { vx, vy, n, color: color.as_u32() }
}

/// The call that draws the filled polygon with the vertices `(vx[i], vy[i])`.
pub fn filled_polygon<'a, C: ToColor>(
    vx: &'a [i16],
    vy: &'a [i16],
    color: C,
) -> (call: NativeCall<'a>)
    requires
        is_point_buffer(vx@, vy@),
        color.is_color(),
    ensures
        call == (NativeCall::FilledPolygonColor {
            vx,
            vy,
            n: vx@.len() as c_int,
            color: pack_rgba(color.channels()),
        }),
        call.well_formed(),
{
    let n: c_int = point_count(vx, vy).unwrap();
    NativeCall::FilledPolygonColor { vx, vy, n, color: color.as_u32() }
}

/// The call that draws the piecewise Bezier curve through the points
/// `(vx[i], vy[i])`, each piece in `s` steps.
pub fn bezier<'a, C: ToColor>(
    vx: &'a [i16],
    vy: &'a [i16],
    s: i32,
    color: C,
) -> (call: NativeCall<'a>)
    requires
        is_point_buffer(vx@, vy@),
        color.is_color(),
    ensures
        call == (NativeCall::BezierColor {
            vx,
            vy,
            n: vx@.len() as c_int,
            s: s as c_int,
            color: pack_rgba(color.channels()),
        }),
        call.well_formed(),
{
    let n: c_int = point_count(vx, vy).unwrap();
    NativeCall::BezierColor { vx, vy, n, s: s as c_int, color: color.as_u32() }
}

/// The call that draws the glyph of `c` with its upper left corner at
/// `(x, y)`, in the font that is set.
pub fn character<'a, C: ToColor>(x: i16, y: i16, c: char, color: C) -> (call: NativeCall<'a>)
    requires
        color.is_color(),
    ensures
        call == (NativeCall::CharacterColor {
            x,
            y,
            c: native_char_of(c),
            color: pack_rgba(color.channels()),
        }),
{
    NativeCall::CharacterColor { x, y, c: native_char(c), color: color.as_u32() }
}

/// The call that draws the text `s` with its upper left corner at `(x, y)`,
/// in the font that is set. The call carries the bytes of `s` and one NUL
/// byte behind them.
pub fn string<'a, C: ToColor>(x: i16, y: i16, s: &str, color: C) -> (call: NativeCall<'a>)
    requires
        !s@.contains('\0'),
        color.is_color(),
    ensures
        is_string_call(call, x, y, s.spec_bytes().push(0u8), pack_rgba(color.channels())),
        call.well_formed(),
{
    let text: Vec<u8> = nul_terminated(s).unwrap();
    NativeCall::StringColor { x, y, text, color: color.as_u32() }
}

} // verus!
