//! A safe calling convention for a native library of 2D drawing primitives.
//!
//! A drawing operation takes three steps. Its typed arguments are marshalled
//! into a [`NativeCall`] (see [`marshal`]): the color is normalized to its
//! packed form, point buffers are counted, text is NUL-terminated. The call
//! is made on a [`NativeSurface`]. The status that comes back is read as a
//! `Result` (see [`status`]). [`DrawRenderer`] puts the three together, one
//! method per primitive.
//!
//! Marshalling and the reading of the status are verified. The call itself
//! is the foreign boundary: the contracts say which call is made and how its
//! answer is read, not what the native library draws.
//!
//! The font of characters and strings is a value of its own (see [`font`]).

pub mod call;
pub mod color;
pub mod error;
pub mod font;
pub mod marshal;
pub mod points;
pub mod primitives;
pub mod status;
pub mod text;

pub use call::NativeCall;
pub use color::{Color, ToColor};
pub use error::Error;
pub use font::{set_font, set_font_rotation, Font, FontCall, FontConfig};
pub use primitives::{DrawRenderer, NativeSurface, SurfaceFn};
