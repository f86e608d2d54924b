//! Point buffers: the vertices of a polygon or a curve as two sequences of
//! coordinates, the x values and the y values.

use libc::c_int;
use vstd::prelude::*;

verus! {

/// Whether two coordinate sequences form a point buffer: they are equally
/// long, and their length can be told in a C `int`.
pub open spec fn is_point_buffer(vx: Seq<i16>, vy: Seq<i16>) -> bool {
    vx.len() == vy.len() && vx.len() <= c_int::MAX
}

/// The number of points in the buffer `(vx, vy)`, or nothing where the two
/// do not form one.
pub fn point_count(vx: &[i16], vy: &[i16]) -> (n: Option<c_int>)
    ensures
        n is Some <==> is_point_buffer(vx@, vy@),
        n matches Some(k) ==> k == vx@.len(),
{
    let len: usize = vx.len();
    if len == vy.len() && len <= c_int::MAX as usize {
        Some(len as c_int)
    } else {
        None
    }
}

/// Coordinate sequences of different lengths are no point buffer: no polygon
/// and no curve can be marshalled from them, and [`point_count`] has no count
/// for them.
pub proof fn lemma_unequal_lengths_are_no_point_buffer(vx: Seq<i16>, vy: Seq<i16>)
    requires
        vx.len() != vy.len(),
    ensures
        !is_point_buffer(vx, vy),
{
}

} // verus!
