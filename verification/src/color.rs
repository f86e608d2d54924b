//! Colors and their packed 32-bit form.
//!
//! A packed color holds the four channels as the bytes of a `u32`, red in the
//! lowest byte, then green, blue and alpha.

use num::traits::ToPrimitive;
use vstd::prelude::*;

verus! {

/// The packed value of the channels `(red, green, blue, alpha)`.
pub open spec fn pack_rgba(c: (u8, u8, u8, u8)) -> u32 {
    (c.0 as int + 0x100 * (c.1 as int) + 0x1_0000 * (c.2 as int) + 0x100_0000 * (c.3 as int)) as u32
}

/// The channels `(red, green, blue, alpha)` of a packed value.
pub open spec fn unpack_rgba(p: u32) -> (u8, u8, u8, u8) {
    (
        (p as int % 0x100) as u8,
        (p as int / 0x100 % 0x100) as u8,
        (p as int / 0x1_0000 % 0x100) as u8,
        (p as int / 0x100_0000) as u8,
    )
}

/// Packs four channels into one `u32`.
pub fn pack(c: (u8, u8, u8, u8)) -> (p: u32)
    ensures
        p == pack_rgba(c),
{
    let r: u32 = c.0 as u32;
    let g: u32 = c.1 as u32;
    let b: u32 = c.2 as u32;
    let a: u32 = c.3 as u32;
    r + 0x100 * g + 0x1_0000 * b + 0x100_0000 * a
}

/// Splits a packed value into its four channels.
pub fn unpack(p: u32) -> (c: (u8, u8, u8, u8))
    ensures
        c == unpack_rgba(p),
{
    let r: u8 = (p % 0x100) as u8;
    let g: u8 = (p / 0x100 % 0x100) as u8;
    let b: u8 = (p / 0x1_0000 % 0x100) as u8;
    let a: u8 = (p / 0x100_0000) as u8;
    (r, g, b, a)
}

/// A color of four 8-bit channels.
#[derive(Clone, Copy, Debug, PartialEq, Eq, Structural)]
pub struct Color {
    pub r: u8,
    pub g: u8,
    pub b: u8,
    pub a: u8,
}

impl Color {
    /// An opaque color.
    #[allow(non_snake_case)]
    pub fn RGB(r: u8, g: u8, b: u8) -> (c: Color)
        ensures
            c == (Color { r, g, b, a: 0xff }),
    {
        Color { r, g, b, a: 0xff }
    }

    /// A color with the given opacity.
    #[allow(non_snake_case)]
    pub fn RGBA(r: u8, g: u8, b: u8, a: u8) -> (c: Color)
        ensures
            c == (Color { r, g, b, a }),
    {
        Color { r, g, b, a }
    }

    /// The four channels, red first.
    pub fn rgba(&self) -> (c: (u8, u8, u8, u8))
        ensures
            c == (self.r, self.g, self.b, self.a),
    {
        (self.r, self.g, self.b, self.a)
    }
}

/// Anything that can be handed to a drawing primitive as its color.
///
/// The forms at hand are a [`Color`], a tuple of the four channels, a packed
/// `u32`, and an `isize` that holds a packed value. Whatever the form, the
/// same color has the same packed value.
pub trait ToColor {
    /// Whether the value denotes a color at all. Most forms always do.
    open spec fn is_color(&self) -> bool {
        true
    }

    /// The channels `(red, green, blue, alpha)` that the value denotes.
    spec fn channels(&self) -> (u8, u8, u8, u8);

    /// The channels of the color, red first.
    fn as_rgba(&self) -> (c: (u8, u8, u8, u8))
        requires
            self.is_color(),
        ensures
            c == self.channels(),
    ;

    /// The color in its packed form.
    fn as_u32(&self) -> (p: u32)
        requires
            self.is_color(),
        ensures
            p == pack_rgba(self.channels()),
    {
        pack(self.as_rgba())
    }
}

impl ToColor for Color {
    open spec fn channels(&self) -> (u8, u8, u8, u8) {
        (self.r, self.g, self.b, self.a)
    }

    fn as_rgba(&self) -> (c: (u8, u8, u8, u8)) {
        self.rgba()
    }
}

impl ToColor for (u8, u8, u8, u8) {
    open spec fn channels(&self) -> (u8, u8, u8, u8) {
        *self
    }

    fn as_rgba(&self) -> (c: (u8, u8, u8, u8)) {
        *self
    }

    fn as_u32(&self) -> (p: u32) {
        pack(*self)
    }
}

impl ToColor for u32 {
    open spec fn channels(&self) -> (u8, u8, u8, u8) {
        unpack_rgba(*self)
    }

    fn as_rgba(&self) -> (c: (u8, u8, u8, u8)) {
        unpack(*self)
    }

    fn as_u32(&self) -> (p: u32) {
        proof {
            lemma_pack_unpack(*self);
        }
        *self
    }
}

/// Calls `num::traits::ToPrimitive::to_u32` on an `isize`. Taken on trust
/// from that crate: the result is the value itself where it lies between 0
/// and `u32::MAX`, and `None` everywhere else.
#[verifier::external_body]
fn isize_to_u32(v: isize) -> (r: Option<u32>)
    ensures
        r == if 0 <= v <= u32::MAX { Some(v as u32) } else { None },
{
    v.to_u32()
}

/// The packed color that a wide signed integer stands for, or nothing where
/// the integer is negative or has no room in 32 bits.
pub fn packed_from_isize(v: isize) -> (p: Option<u32>)
    ensures
        p is Some <==> v.is_color(),
        p matches Some(q) ==> q == v,
{
    isize_to_u32(v)
}

/// A wide integer is the form that an untyped literal such as `0xFF0000FF`
/// takes. It is a color where it is the value of a packed `u32`, and no color
/// otherwise: nothing is cut off to make it fit.
impl ToColor for isize {
    open spec fn is_color(&self) -> bool {
        0 <= *self <= u32::MAX
    }

    open spec fn channels(&self) -> (u8, u8, u8, u8) {
        unpack_rgba(*self as u32)
    }

    fn as_rgba(&self) -> (c: (u8, u8, u8, u8)) {
        unpack(packed_from_isize(*self).expect("Can't convert to Color Type"))
    }

    fn as_u32(&self) -> (p: u32) {
        proof {
            lemma_pack_unpack(*self as u32);
        }
        packed_from_isize(*self).expect("Can't convert to Color Type")
    }
}

/// Packing the channels of a packed value gives the value back.
pub proof fn lemma_pack_unpack(p: u32)
    ensures
        pack_rgba(unpack_rgba(p)) == p,
{
}

/// Unpacking a packed color gives its channels back.
pub proof fn lemma_unpack_pack(c: (u8, u8, u8, u8))
    ensures
        unpack_rgba(pack_rgba(c)) == c,
{
    let r: int = c.0 as int;
    let g: int = c.1 as int;
    let b: int = c.2 as int;
    let a: int = c.3 as int;
    let high: int = b + 0x100 * a;
    let mid: int = g + 0x100 * high;
    let p: int = r + 0x100 * mid;
    assert(p == pack_rgba(c) as int);
    assert(p % 0x100 == r && p / 0x100 == mid);
    assert(mid % 0x100 == g && mid / 0x100 == high);
    assert(high % 0x100 == b && high / 0x100 == a);
}

/// Whatever form a color is given in, it normalizes to the same packed value:
/// the color object, the tuple of its channels and the packed `u32` all denote
/// the channels `(r, g, b, a)` and pack to `pack_rgba((r, g, b, a))`.
pub proof fn lemma_color_forms_agree(r: u8, g: u8, b: u8, a: u8)
    ensures
        ({
            let object = Color { r, g, b, a };
            let tuple = (r, g, b, a);
            let packed: u32 = pack_rgba(tuple);
            &&& object.is_color() && tuple.is_color() && packed.is_color()
            &&& object.channels() == tuple
            &&& tuple.channels() == tuple
            &&& packed.channels() == tuple
            &&& pack_rgba(object.channels()) == packed
            &&& pack_rgba(tuple.channels()) == packed
            &&& pack_rgba(packed.channels()) == packed
        }),
{
    lemma_unpack_pack((r, g, b, a));
}

/// A wide integer that denotes a color denotes the same one as the `u32` of
/// equal value, and normalizes to that value.
pub proof fn lemma_wide_form_agrees(v: isize)
    requires
        v.is_color(),
    ensures
        v.channels() == (v as u32).channels(),
        pack_rgba(v.channels()) == v,
{
    lemma_pack_unpack(v as u32);
}

} // verus!
