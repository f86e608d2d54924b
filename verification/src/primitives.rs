//! Drawing primitives on a surface.
//!
//! [`DrawRenderer`] offers one method per primitive. Each marshals its
//! arguments (see [`crate::marshal`]), makes the one resulting call on the
//! surface, and interprets the status that comes back (see
//! [`crate::status`]). Whether a call succeeds is up to the native library:
//! success means that it accepted and ran the call, not that any pixel
//! changed.
//!
//! Neither a surface nor the native library behind it is safe to use from
//! two threads at once. Nothing here locks; callers serialize.

use crate::call::{is_string_call, NativeCall};
use crate::color::{pack_rgba, ToColor};
use crate::error::Error;
use crate::marshal;
use crate::points::is_point_buffer;
use crate::status::{outcome, succeeded, SUCCESS};
use crate::text::native_char_of;
use libc::c_int;
use vstd::prelude::*;
use vstd::string::StringSliceAdditionalSpecFns;

verus! {

/// The foreign boundary: a rendering target on which native calls are made.
///
/// `answers` and `reports` say what the two entry points may return. They
/// are the implementation's to define and promise nothing by themselves: an
/// implementation that knows nothing of its native library lets both hold
/// of everything.
///
/// An implementation of `issue` makes the call and nothing else. It may rely
/// on the call being well formed, and must not keep what the call borrows.
pub trait NativeSurface {
    /// Whether `status` is a status that this surface may answer `call` with.
    open spec fn answers(&self, call: NativeCall<'_>, status: c_int) -> bool {
        true
    }

    /// Whether `diagnostic` is a text that this surface may report as the
    /// last error of the native library.
    open spec fn reports(&self, diagnostic: String) -> bool {
        true
    }

    /// Makes `call` on this surface and returns the native status.
    fn issue(&self, call: &NativeCall<'_>) -> (status: c_int)
        requires
            call.well_formed(),
        ensures
            self.answers(*call, status),
    ;

    /// The diagnostic that the native library recorded last.
    fn last_error(&self) -> (diagnostic: String)
        ensures
            self.reports(diagnostic),
    ;
}

/// A surface made of two functions: one that makes a call and returns its
/// status, one that fetches the last diagnostic.
pub struct SurfaceFn<I, E> where I: Fn(&NativeCall<'_>) -> c_int, E: Fn() -> String {
    issue: I,
    last_error: E,
}

impl<I, E> SurfaceFn<I, E> where I: Fn(&NativeCall<'_>) -> c_int, E: Fn() -> String {
    #[verifier::type_invariant]
    spec fn callable(self) -> bool {
        &&& forall|call: NativeCall<'_>| call.well_formed() ==> call_requires(self.issue, (&call,))
        &&& call_requires(self.last_error, ())
    }

    /// The surface that makes its calls with `issue` and fetches its
    /// diagnostics with `last_error`. `issue` has to take every well-formed
    /// call.
    pub fn new(issue: I, last_error: E) -> (surface: SurfaceFn<I, E>)
        requires
            forall|call: NativeCall<'_>| call.well_formed() ==> call_requires(issue, (&call,)),
            call_requires(last_error, ()),
        ensures
            forall|call: NativeCall<'_>, status: c_int|
                surface.answers(call, status) == call_ensures(issue, (&call,), status),
            forall|diagnostic: String|
                surface.reports(diagnostic) == call_ensures(last_error, (), diagnostic),
    {
        SurfaceFn { issue, last_error }
    }
}

impl<I, E> NativeSurface for SurfaceFn<I, E> where
    I: Fn(&NativeCall<'_>) -> c_int,
    E: Fn() -> String,
 {
    closed spec fn answers(&self, call: NativeCall<'_>, status: c_int) -> bool {
        call_ensures(self.issue, (&call,), status)
    }

    closed spec fn reports(&self, diagnostic: String) -> bool {
        call_ensures(self.last_error, (), diagnostic)
    }

    fn issue(&self, call: &NativeCall<'_>) -> (status: c_int) {
        proof {
            use_type_invariant(self);
        }
        (self.issue)(call)
    }

    fn last_error(&self) -> (diagnostic: String) {
        proof {
            use_type_invariant(self);
        }
        (self.last_error)()
    }
}

/// Whether `r` is what drawing `call` on `surface` may return: success where
/// the surface answered the call with [`SUCCESS`]; where it answered with
/// another status, the failure that carries the diagnostic reported by the
/// surface.
pub open spec fn drew<S: NativeSurface + ?Sized>(
    surface: &S,
    call: NativeCall<'_>,
    r: Result<(), Error>,
) -> bool {
    match r {
        Ok(()) => surface.answers(call, SUCCESS),
        Err(Error::NativeCallFailed(diagnostic)) => {
            &&& surface.reports(diagnostic)
            &&& exists|status: c_int| status != SUCCESS && #[trigger] surface.answers(call, status)
        },
        Err(Error::Unimplemented) => false,
    }
}

/// Makes one marshalled call on `surface` and interprets its status. The
/// diagnostic is fetched after a failure only, and before anything else is
/// done.
pub fn submit<S: NativeSurface + ?Sized>(
    surface: &S,
    call: &NativeCall<'_>,
) -> (r: Result<(), Error>)
    requires
        call.well_formed(),
    ensures
        drew(surface, *call, r),
{
    let status: c_int = surface.issue(call);
    if succeeded(status) {
        Ok(())
    } else {
        outcome(status, surface.last_error())
    }
}

/// The drawing primitives of a surface.
///
/// Every method but one makes exactly one native call. It returns `Ok` where
/// the native library answers with [`SUCCESS`], and otherwise
/// [`Error::NativeCallFailed`] with the diagnostic of the native library.
/// [`DrawRenderer::textured_polygon`] makes no call and always returns
/// [`Error::Unimplemented`].
///
/// A color may be given in any form that [`ToColor`] knows. The two
/// sequences of a point buffer have to be equally long (see
/// [`is_point_buffer`]), and a text must not hold the NUL character. These are
/// preconditions, not errors: an unverified caller that breaks one is stopped
/// by a panic before any call is made.
pub trait DrawRenderer: NativeSurface {
    /// Draws the pixel at `(x, y)`.
    fn pixel<C: ToColor>(&self, x: i16, y: i16, color: C) -> (r: Result<(), Error>)
        requires
            color.is_color(),
        ensures
            drew(self, NativeCall::PixelColor { x, y, color: pack_rgba(color.channels()) }, r),
    ;

    /// Draws the horizontal line from `(x1, y)` to `(x2, y)`.
    fn hline<C: ToColor>(&self, x1: i16, x2: i16, y: i16, color: C) -> (r: Result<(), Error>)
        requires
            color.is_color(),
        ensures
            drew(self, NativeCall::HlineColor { x1, x2, y, color: pack_rgba(color.channels()) }, r),
    ;

    /// Draws the vertical line from `(x, y1)` to `(x, y2)`.
    fn vline<C: ToColor>(&self, x: i16, y1: i16, y2: i16, color: C) -> (r: Result<(), Error>)
        requires
            color.is_color(),
        ensures
            drew(self, NativeCall::VlineColor { x, y1, y2, color: pack_rgba(color.channels()) }, r),
    ;

    /// Draws the outline of the rectangle with the opposite corners
    /// `(x1, y1)` and `(x2, y2)`.
    fn rectangle<C: ToColor>(
        &self,
        x1: i16,
        y1: i16,
        x2: i16,
        y2: i16,
        color: C,
    ) -> (r: Result<(), Error>)
        requires
            color.is_color(),
        ensures
            drew(
                self,
                NativeCall::RectangleColor { x1, y1, x2, y2, color: pack_rgba(color.channels()) },
                r,
            ),
    ;

    /// Draws the outline of the rectangle with the opposite corners
    /// `(x1, y1)` and `(x2, y2)`, its corners rounded with radius `rad`.
    fn rounded_rectangle<C: ToColor>(
        &self,
        x1: i16,
        y1: i16,
        x2: i16,
        y2: i16,
        rad: i16,
        color: C,
    ) -> (r: Result<(), Error>)
        requires
            color.is_color(),
        ensures
            drew(
                self,
                NativeCall::RoundedRectangleColor {
                    x1,
                    y1,
                    x2,
                    y2,
                    rad,
                    color: pack_rgba(color.channels()),
                },
                r,
            ),
    ;

    /// Draws the filled rectangle with the opposite corners `(x1, y1)` and
    /// `(x2, y2)`.
    fn box_<C: ToColor>(
        &self,
        x1: i16,
        y1: i16,
        x2: i16,
        y2: i16,
        color: C,
    ) -> (r: Result<(), Error>)
        requires
            color.is_color(),
        ensures
            drew(
                self,
                NativeCall::BoxColor { x1, y1, x2, y2, color: pack_rgba(color.channels()) },
                r,
            ),
    ;

    /// Draws the filled rectangle with the opposite corners `(x1, y1)` and
    /// `(x2, y2)`, its corners rounded with radius `rad`.
    fn rounded_box<C: ToColor>(
        &self,
        x1: i16,
        y1: i16,
        x2: i16,
        y2: i16,
        rad: i16,
        color: C,
    ) -> (r: Result<(), Error>)
        requires
            color.is_color(),
        ensures
            drew(
                self,
                NativeCall::RoundedBoxColor {
                    x1,
                    y1,
                    x2,
                    y2,
                    rad,
                    color: pack_rgba(color.channels()),
                },
                r,
            ),
    ;

    /// Draws the line from `(x1, y1)` to `(x2, y2)`.
    fn line<C: ToColor>(
        &self,
        x1: i16,
        y1: i16,
        x2: i16,
        y2: i16,
        color: C,
    ) -> (r: Result<(), Error>)
        requires
            color.is_color(),
        ensures
            drew(
                self,
                NativeCall::LineColor { x1, y1, x2, y2, color: pack_rgba(color.channels()) },
                r,
            ),
    ;

    /// Draws the anti-aliased line from `(x1, y1)` to `(x2, y2)`.
    fn aa_line<C: ToColor>(
        &self,
        x1: i16,
        y1: i16,
        x2: i16,
        y2: i16,
        color: C,
    ) -> (r: Result<(), Error>)
        requires
            color.is_color(),
        ensures
            drew(
                self,
                NativeCall::AalineColor { x1, y1, x2, y2, color: pack_rgba(color.channels()) },
                r,
            ),
    ;

    /// Draws the line from `(x1, y1)` to `(x2, y2)`, `width` pixels thick.
    fn thick_line<C: ToColor>(
        &self,
        x1: i16,
        y1: i16,
        x2: i16,
        y2: i16,
        width: u8,
        color: C,
    ) -> (r: Result<(), Error>)
        requires
            color.is_color(),
        ensures
            drew(
                self,
                NativeCall::ThickLineColor {
                    x1,
                    y1,
                    x2,
                    y2,
                    width,
                    color: pack_rgba(color.channels()),
                },
                r,
            ),
    ;

    /// Draws the outline of the circle around `(x, y)` with radius `rad`.
    fn circle<C: ToColor>(&self, x: i16, y: i16, rad: i16, color: C) -> (r: Result<(), Error>)
        requires
            color.is_color(),
        ensures
            drew(
                self,
                NativeCall::CircleColor { x, y, rad, color: pack_rgba(color.channels()) },
                r,
            ),
    ;

    /// Draws the anti-aliased outline of the circle around `(x, y)` with
    /// radius `rad`.
    fn aa_circle<C: ToColor>(&self, x: i16, y: i16, rad: i16, color: C) -> (r: Result<(), Error>)
        requires
            color.is_color(),
        ensures
            drew(
                self,
                NativeCall::AacircleColor { x, y, rad, color: pack_rgba(color.channels()) },
                r,
            ),
    ;

    /// Draws the filled circle around `(x, y)` with radius `rad`.
    fn filled_circle<C: ToColor>(
        &self,
        x: i16,
        y: i16,
        rad: i16,
        color: C,
    ) -> (r: Result<(), Error>)
        requires
            color.is_color(),
        ensures
            drew(
                self,
                NativeCall::FilledCircleColor { x, y, rad, color: pack_rgba(color.channels()) },
                r,
            ),
    ;

    /// Draws the arc of the circle around `(x, y)` with radius `rad`, from
    /// `start` to `end` degrees.
    fn arc<C: ToColor>(
        &self,
        x: i16,
        y: i16,
        rad: i16,
        start: i16,
        end: i16,
        color: C,
    ) -> (r: Result<(), Error>)
        requires
            color.is_color(),
        ensures
            drew(
                self,
                NativeCall::ArcColor { x, y, rad, start, end, color: pack_rgba(color.channels()) },
                r,
            ),
    ;

    /// Draws the outline of the ellipse around `(x, y)` with the radii `rx`
    /// and `ry`.
    fn ellipse<C: ToColor>(
        &self,
        x: i16,
        y: i16,
        rx: i16,
        ry: i16,
        color: C,
    ) -> (r: Result<(), Error>)
        requires
            color.is_color(),
        ensures
            drew(
                self,
                NativeCall::EllipseColor { x, y, rx, ry, color: pack_rgba(color.channels()) },
                r,
            ),
    ;

    /// Draws the anti-aliased outline of the ellipse around `(x, y)` with the
    /// radii `rx` and `ry`.
    fn aa_ellipse<C: ToColor>(
        &self,
        x: i16,
        y: i16,
        rx: i16,
        ry: i16,
        color: C,
    ) -> (r: Result<(), Error>)
        requires
            color.is_color(),
        ensures
            drew(
                self,
                NativeCall::AaellipseColor { x, y, rx, ry, color: pack_rgba(color.channels()) },
                r,
            ),
    ;

    /// Draws the filled ellipse around `(x, y)` with the radii `rx` and `ry`.
    fn filled_ellipse<C: ToColor>(
        &self,
        x: i16,
        y: i16,
        rx: i16,
        ry: i16,
        color: C,
    ) -> (r: Result<(), Error>)
        requires
            color.is_color(),
        ensures
            drew(
                self,
                NativeCall::FilledEllipseColor { x, y, rx, ry, color: pack_rgba(color.channels()) },
                r,
            ),
    ;

    /// Draws the outline of the pie slice around `(x, y)` with radius `rad`,
    /// from `start` to `end` degrees.
    fn pie<C: ToColor>(
        &self,
        x: i16,
        y: i16,
        rad: i16,
        start: i16,
        end: i16,
        color: C,
    ) -> (r: Result<(), Error>)
        requires
            color.is_color(),
        ensures
            drew(
                self,
                NativeCall::PieColor { x, y, rad, start, end, color: pack_rgba(color.channels()) },
                r,
            ),
    ;

    /// Draws the filled pie slice around `(x, y)` with radius `rad`, from
    /// `start` to `end` degrees.
    fn filled_pie<C: ToColor>(
        &self,
        x: i16,
        y: i16,
        rad: i16,
        start: i16,
        end: i16,
        color: C,
    ) -> (r: Result<(), Error>)
        requires
            color.is_color(),
        ensures
            drew(
                self,
                NativeCall::FilledPieColor {
                    x,
                    y,
                    rad,
                    start,
                    end,
                    color: pack_rgba(color.channels()),
                },
                r,
            ),
    ;

    /// Draws the outline of the triangle `(x1, y1)`, `(x2, y2)`, `(x3, y3)`.
    fn trigon<C: ToColor>(
        &self,
        x1: i16,
        y1: i16,
        x2: i16,
        y2: i16,
        x3: i16,
        y3: i16,
        color: C,
    ) -> (r: Result<(), Error>)
        requires
            color.is_color(),
        ensures
            drew(
                self,
                NativeCall::TrigonColor {
                    x1,
                    y1,
                    x2,
                    y2,
                    x3,
                    y3,
                    color: pack_rgba(color.channels()),
                },
                r,
            ),
    ;

    /// Draws the anti-aliased outline of the triangle `(x1, y1)`, `(x2, y2)`,
    /// `(x3, y3)`.
    fn aa_trigon<C: ToColor>(
        &self,
        x1: i16,
        y1: i16,
        x2: i16,
        y2: i16,
        x3: i16,
        y3: i16,
        color: C,
    ) -> (r: Result<(), Error>)
        requires
            color.is_color(),
        ensures
            drew(
                self,
                NativeCall::AatrigonColor {
                    x1,
                    y1,
                    x2,
                    y2,
                    x3,
                    y3,
                    color: pack_rgba(color.channels()),
                },
                r,
            ),
    ;

    /// Draws the filled triangle `(x1, y1)`, `(x2, y2)`, `(x3, y3)`.
    fn filled_trigon<C: ToColor>(
        &self,
        x1: i16,
        y1: i16,
        x2: i16,
        y2: i16,
        x3: i16,
        y3: i16,
        color: C,
    ) -> (r: Result<(), Error>)
        requires
            color.is_color(),
        ensures
            drew(
                self,
                NativeCall::FilledTrigonColor {
                    x1,
                    y1,
                    x2,
                    y2,
                    x3,
                    y3,
                    color: pack_rgba(color.channels()),
                },
                r,
            ),
    ;

    /// Draws the outline of the polygon with the vertices `(vx[i], vy[i])`.
    fn polygon<C: ToColor>(&self, vx: &[i16], vy: &[i16], color: C) -> (r: Result<(), Error>)
        requires
            is_point_buffer(vx@, vy@),
            color.is_color(),
        ensures
            drew(
                self,
                NativeCall::PolygonColor {
                    vx,
                    vy,
                    n: vx@.len() as c_int,
                    color: pack_rgba(color.channels()),
                },
                r,
            ),
    ;

    /// Draws the anti-aliased outline of the polygon with the vertices
    /// `(vx[i], vy[i])`.
    fn aa_polygon<C: ToColor>(&self, vx: &[i16], vy: &[i16], color: C) -> (r: Result<(), Error>)
        requires
            is_point_buffer(vx@, vy@),
            color.is_color(),
        ensures
            drew(
                self,
                NativeCall::AapolygonColor {
                    vx,
                    vy,
                    n: vx@.len() as c_int,
                    color: pack_rgba(color.channels()),
                },
                r,
            ),
    ;

    /// Draws the filled polygon with the vertices `(vx[i], vy[i])`.
    fn filled_polygon<C: ToColor>(&self, vx: &[i16], vy: &[i16], color: C) -> (r: Result<(), Error>)
        requires
            is_point_buffer(vx@, vy@),
            color.is_color(),
        ensures
            drew(
                self,
                NativeCall::FilledPolygonColor {
                    vx,
                    vy,
                    n: vx@.len() as c_int,
                    color: pack_rgba(color.channels()),
                },
                r,
            ),
    ;

    /// Would draw the polygon with the vertices `(vx[i], vy[i])` filled with
    /// `texture`. Not implemented: whatever the arguments, no call is made
    /// and the result says so.
    fn textured_polygon<C: ToColor, T>(
        &self,
        vx: &[i16],
        vy: &[i16],
        texture: &T,
        texture_dx: i16,
        texture_dy: i16,
        color: C,
    ) -> (r: Result<(), Error>)
        ensures
            r == Err::<(), Error>(Error::Unimplemented),
    ;

    /// Draws the piecewise Bezier curve through the points `(vx[i], vy[i])`,
    /// each piece in `s` steps.
    fn bezier<C: ToColor>(&self, vx: &[i16], vy: &[i16], s: i32, color: C) -> (r: Result<(), Error>)
        requires
            is_point_buffer(vx@, vy@),
            color.is_color(),
        ensures
            drew(
                self,
                NativeCall::BezierColor {
                    vx,
                    vy,
                    n: vx@.len() as c_int,
                    s: s as c_int,
                    color: pack_rgba(color.channels()),
                },
                r,
            ),
    ;

    /// Draws the glyph of `c` with its upper left corner at `(x, y)`, in the
    /// font that is set.
    fn character<C: ToColor>(&self, x: i16, y: i16, c: char, color: C) -> (r: Result<(), Error>)
        requires
            color.is_color(),
        ensures
            drew(
                self,
                NativeCall::CharacterColor {
                    x,
                    y,
                    c: native_char_of(c),
                    color: pack_rgba(color.channels()),
                },
                r,
            ),
    ;

    /// Draws the text `s` with its upper left corner at `(x, y)`, in the font
    /// that is set.
    fn string<C: ToColor>(&self, x: i16, y: i16, s: &str, color: C) -> (r: Result<(), Error>)
        requires
            !s@.contains('\0'),
            color.is_color(),
        ensures
            exists|call: NativeCall<'_>|
                is_string_call(call, x, y, s.spec_bytes().push(0u8), pack_rgba(color.channels()))
                    && #[trigger] drew(self, call, r),
    ;
}

impl<S: NativeSurface> DrawRenderer for S {
    fn pixel<C: ToColor>(&self, x: i16, y: i16, color: C) -> (r: Result<(), Error>) {
        submit(self, &marshal::pixel(x, y, color))
    }

    fn hline<C: ToColor>(&self, x1: i16, x2: i16, y: i16, color: C) -> (r: Result<(), Error>) {
        submit(self, &marshal::hline(x1, x2, y, color))
    }

    fn vline<C: ToColor>(&self, x: i16, y1: i16, y2: i16, color: C) -> (r: Result<(), Error>) {
        submit(self, &marshal::vline(x, y1, y2, color))
    }

    fn rectangle<C: ToColor>(
        &self,
        x1: i16,
        y1: i16,
        x2: i16,
        y2: i16,
        color: C,
    ) -> (r: Result<(), Error>) {
        submit(self, &marshal::rectangle(x1, y1, x2, y2, color))
    }

    fn rounded_rectangle<C: ToColor>(
        &self,
        x1: i16,
        y1: i16,
        x2: i16,
        y2: i16,
        rad: i16,
        color: C,
    ) -> (r: Result<(), Error>) {
        submit(self, &marshal::rounded_rectangle(x1, y1, x2, y2, rad, color))
    }

    fn box_<C: ToColor>(
        &self,
        x1: i16,
        y1: i16,
        x2: i16,
        y2: i16,
        color: C,
    ) -> (r: Result<(), Error>) {
        submit(self, &marshal::box_(x1, y1, x2, y2, color))
    }

    fn rounded_box<C: ToColor>(
        &self,
        x1: i16,
        y1: i16,
        x2: i16,
        y2: i16,
        rad: i16,
        color: C,
    ) -> (r: Result<(), Error>) {
        submit(self, &marshal::rounded_box(x1, y1, x2, y2, rad, color))
    }

    fn line<C: ToColor>(
        &self,
        x1: i16,
        y1: i16,
        x2: i16,
        y2: i16,
        color: C,
    ) -> (r: Result<(), Error>) {
        submit(self, &marshal::line(x1, y1, x2, y2, color))
    }

    fn aa_line<C: ToColor>(
        &self,
        x1: i16,
        y1: i16,
        x2: i16,
        y2: i16,
        color: C,
    ) -> (r: Result<(), Error>) {
        submit(self, &marshal::aa_line(x1, y1, x2, y2, color))
    }

    fn thick_line<C: ToColor>(
        &self,
        x1: i16,
        y1: i16,
        x2: i16,
        y2: i16,
        width: u8,
        color: C,
    ) -> (r: Result<(), Error>) {
        submit(self, &marshal::thick_line(x1, y1, x2, y2, width, color))
    }

    fn circle<C: ToColor>(&self, x: i16, y: i16, rad: i16, color: C) -> (r: Result<(), Error>) {
        submit(self, &marshal::circle(x, y, rad, color))
    }

    fn aa_circle<C: ToColor>(&self, x: i16, y: i16, rad: i16, color: C) -> (r: Result<(), Error>) {
        submit(self, &marshal::aa_circle(x, y, rad, color))
    }

    fn filled_circle<C: ToColor>(
        &self,
        x: i16,
        y: i16,
        rad: i16,
        color: C,
    ) -> (r: Result<(), Error>) {
        submit(self, &marshal::filled_circle(x, y, rad, color))
    }

    fn arc<C: ToColor>(
        &self,
        x: i16,
        y: i16,
        rad: i16,
        start: i16,
        end: i16,
        color: C,
    ) -> (r: Result<(), Error>) {
        submit(self, &marshal::arc(x, y, rad, start, end, color))
    }

    fn ellipse<C: ToColor>(
        &self,
        x: i16,
        y: i16,
        rx: i16,
        ry: i16,
        color: C,
    ) -> (r: Result<(), Error>) {
        submit(self, &marshal::ellipse(x, y, rx, ry, color))
    }

    fn aa_ellipse<C: ToColor>(
        &self,
        x: i16,
        y: i16,
        rx: i16,
        ry: i16,
        color: C,
    ) -> (r: Result<(), Error>) {
        submit(self, &marshal::aa_ellipse(x, y, rx, ry, color))
    }

    fn filled_ellipse<C: ToColor>(
        &self,
        x: i16,
        y: i16,
        rx: i16,
        ry: i16,
        color: C,
    ) -> (r: Result<(), Error>) {
        submit(self, &marshal::filled_ellipse(x, y, rx, ry, color))
    }

    fn pie<C: ToColor>(
        &self,
        x: i16,
        y: i16,
        rad: i16,
        start: i16,
        end: i16,
        color: C,
    ) -> (r: Result<(), Error>) {
        submit(self, &marshal::pie(x, y, rad, start, end, color))
    }

    fn filled_pie<C: ToColor>(
        &self,
        x: i16,
        y: i16,
        rad: i16,
        start: i16,
        end: i16,
        color: C,
    ) -> (r: Result<(), Error>) {
        submit(self, &marshal::filled_pie(x, y, rad, start, end, color))
    }

    fn trigon<C: ToColor>(
        &self,
        x1: i16,
        y1: i16,
        x2: i16,
        y2: i16,
        x3: i16,
        y3: i16,
        color: C,
    ) -> (r: Result<(), Error>) {
        submit(self, &marshal::trigon(x1, y1, x2, y2, x3, y3, color))
    }

    fn aa_trigon<C: ToColor>(
        &self,
        x1: i16,
        y1: i16,
        x2: i16,
        y2: i16,
        x3: i16,
        y3: i16,
        color: C,
    ) -> (r: Result<(), Error>) {
        submit(self, &marshal::aa_trigon(x1, y1, x2, y2, x3, y3, color))
    }

    fn filled_trigon<C: ToColor>(
        &self,
        x1: i16,
        y1: i16,
        x2: i16,
        y2: i16,
        x3: i16,
        y3: i16,
        color: C,
    ) -> (r: Result<(), Error>) {
        submit(self, &marshal::filled_trigon(x1, y1, x2, y2, x3, y3, color))
    }

    fn polygon<C: ToColor>(&self, vx: &[i16], vy: &[i16], color: C) -> (r: Result<(), Error>) {
        submit(self, &marshal::polygon(vx, vy, color))
    }

    fn aa_polygon<C: ToColor>(&self, vx: &[i16], vy: &[i16], color: C) -> (r: Result<(), Error>) {
        submit(self, &marshal::aa_polygon(vx, vy, color))
    }

    fn filled_polygon<C: ToColor>(
        &self,
        vx: &[i16],
        vy: &[i16],
        color: C,
    ) -> (r: Result<(), Error>) {
        submit(self, &marshal::filled_polygon(vx, vy, color))
    }

    #[allow(unused_variables)]
    fn textured_polygon<C: ToColor, T>(
        &self,
        vx: &[i16],
        vy: &[i16],
        texture: &T,
        texture_dx: i16,
        texture_dy: i16,
        color: C,
    ) -> (r: Result<(), Error>) {
        Err(Error::Unimplemented)
    }

    fn bezier<C: ToColor>(
        &self,
        vx: &[i16],
        vy: &[i16],
        s: i32,
        color: C,
    ) -> (r: Result<(), Error>) {
        submit(self, &marshal::bezier(vx, vy, s, color))
    }

    fn character<C: ToColor>(&self, x: i16, y: i16, c: char, color: C) -> (r: Result<(), Error>) {
        submit(self, &marshal::character(x, y, c, color))
    }

    fn string<C: ToColor>(&self, x: i16, y: i16, s: &str, color: C) -> (r: Result<(), Error>) {
        let call = marshal::string(x, y, s, color);
        submit(self, &call)
    }
}

} // verus!
