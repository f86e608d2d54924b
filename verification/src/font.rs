//! The font that characters and strings are drawn in.
//!
//! The native library keeps one font setting for the whole process. Here it
//! is an explicit value: [`FontConfig`] records what the library was last
//! told, and each change returns the [`FontCall`] that tells it. The native
//! calls return nothing, so a change cannot fail.
//!
//! A configuration must not be changed while another thread draws text.

use vstd::prelude::*;

verus! {

/// One call of a native font function, with its arguments as the native
/// signature takes them.
#[derive(Debug, PartialEq, Eq)]
pub enum FontCall<'a> {
    /// Sets the font bitmap and its cell size; no bitmap resets to the
    /// built-in font.
    SetFont { fontdata: Option<&'a [u8]>, cw: u32, ch: u32 },
    /// Sets the number of quarter turns by which glyphs are rotated.
    SetFontRotation { rotation: u32 },
}

/// A font as the native library knows it.
#[derive(Debug, PartialEq, Eq)]
pub enum Font<'a> {
    /// The font that the native library brings along.
    BuiltIn,
    /// A caller's bitmap with cells of `cw` by `ch` pixels. The bitmap stays
    /// the caller's; the native library reads it while the font is set.
    Custom { data: &'a [u8], cw: u32, ch: u32 },
}

/// The font that a call with these arguments sets.
pub open spec fn font_of<'a>(fontdata: Option<&'a [u8]>, cw: u32, ch: u32) -> Font<'a> {
    match fontdata {
        Some(data) => Font::Custom { data, cw, ch },
        None => Font::BuiltIn,
    }
}

/// The font setting of the native library.
#[derive(Debug, PartialEq, Eq)]
pub struct FontConfig<'a> {
    pub font: Font<'a>,
    /// Quarter turns by which glyphs are rotated: 0 to 3 stand for 0, 90, 180
    /// and 270 degrees.
    pub rotation: u32,
}

impl<'a> FontConfig<'a> {
    /// The setting that the native library starts with: its built-in font,
    /// not rotated.
    pub fn new() -> (config: FontConfig<'a>)
        ensures
            config == (FontConfig { font: Font::BuiltIn, rotation: 0 }),
    {
        FontConfig { font: Font::BuiltIn, rotation: 0 }
    }
}

/// Sets the font to the bitmap `fontdata` with cells of `cw` by `ch` pixels,
/// or resets it to the built-in font where `fontdata` is `None`. The rotation
/// stays as it is. Returns the native call that makes the change.
pub fn set_font<'a>(
    config: &mut FontConfig<'a>,
    fontdata: Option<&'a [u8]>,
    cw: u32,
    ch: u32,
) -> (call: FontCall<'a>)
    ensures
        call == (FontCall::SetFont { fontdata, cw, ch }),
        final(config).font == font_of(fontdata, cw, ch),
        final(config).rotation == old(config).rotation,
{
    config.font = match fontdata {
        Some(data) => Font::Custom { data, cw, ch },
        None => Font::BuiltIn,
    };
    FontCall::SetFont { fontdata, cw, ch }
}

/// Sets the rotation of glyphs to `rotation` quarter turns. The font stays as
/// it is. Returns the native call that makes the change.
///
/// Every value is accepted. The steps 0 to 3 are the four rotations; a larger
/// value is neither rejected nor reduced here, it reaches the native library
/// as given.
pub fn set_font_rotation<'a>(config: &mut FontConfig<'a>, rotation: u32) -> (call: FontCall<'a>)
    ensures
        call == (FontCall::SetFontRotation { rotation }),
        final(config).rotation == rotation,
        final(config).font == old(config).font,
{
    config.rotation = rotation;
    FontCall::SetFontRotation { rotation }
}

} // verus!
