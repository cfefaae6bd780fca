use vstd::prelude::*;

use crate::buffer::TermBuffer;
use crate::grid::{empty_grid, TermCell};
use crate::records::CameraRecord;

verus! {

/// The character grid's dimensions, as computed from what the display driver
/// reports: (columns, rows).
#[derive(Clone, Copy, PartialEq, Eq, Structural, Debug)]
pub struct TermSize(pub i32, pub i32);

/// The grid dimensions for a reported window size: wide mode reserves two
/// margin columns, so that doubled sprite columns never run off the edge.
pub fn window_grid_size(raw_cols: i32, raw_rows: i32, wide: bool) -> (size: TermSize)
    requires
        i32::MIN + 2 <= raw_cols,
    ensures
        size.0 == raw_cols - (if wide { 2int } else { 0int }),
        size.1 == raw_rows,
{
    let sub: i32 = if wide { 2 } else { 0 };
    TermSize(raw_cols - sub, raw_rows)
}

/// Columns of a reported size, with a nonsensical negative report clamped to
/// an empty grid.
pub open spec fn clamped_cols(size: TermSize) -> nat {
    if size.0 >= 0 { size.0 as nat } else { 0 }
}

/// Rows of a reported size, clamped like `clamped_cols`.
pub open spec fn clamped_rows(size: TermSize) -> nat {
    if size.1 >= 0 { size.1 as nat } else { 0 }
}

/// What a resize to `size` leaves in the buffer: all prior content is lost,
/// whatever it was; the grid is empty at the new dimensions.
pub open spec fn after_resize(g: Seq<Seq<TermCell>>, size: TermSize) -> Seq<Seq<TermCell>> {
    empty_grid(clamped_cols(size), clamped_rows(size))
}

/// Reallocate the frame buffer at a freshly reported size.  Content is not
/// carried over: every frame is recomputed from the tick's records anyway.
pub fn handle_resize(buffer: &mut TermBuffer, size: TermSize)
    ensures
        final(buffer).wf(),
        final(buffer).spec_cols() == clamped_cols(size),
        final(buffer).spec_rows() == clamped_rows(size),
        final(buffer).grid() == after_resize(old(buffer).grid(), size),
{
    let cols: usize = if size.0 >= 0 { size.0 as usize } else { 0 };
    let rows: usize = if size.1 >= 0 { size.1 as usize } else { 0 };
    buffer.resize(cols, rows);
}

/// Euclidean (floor) halving: rounds toward minus infinity, unlike `/` on a
/// machine integer, which rounds toward zero.
fn floor_div2(t: i128) -> (r: i128)
    requires
        i128::MIN < t,
    ensures
        r == t as int / 2,
{
    if t >= 0 {
        ((t as u128) / 2) as i128
    } else {
        let m: u128 = ((-t) as u128 + 1) / 2;
        -(m as i128)
    }
}

/// The camera position the projector uses: the one camera's position when
/// exactly one exists, the origin otherwise (the documented fallback for a
/// missing or ambiguous camera).
pub open spec fn camera_x(cams: Seq<CameraRecord>) -> int {
    if cams.len() == 1 { cams[0].x as int } else { 0 }
}

/// See `camera_x`.
pub open spec fn camera_y(cams: Seq<CameraRecord>) -> int {
    if cams.len() == 1 { cams[0].y as int } else { 0 }
}

/// The horizontal screen translation that centers the camera in a grid of
/// `cols` columns, by integer-biased (floor) halving.
pub open spec fn camera_offset_x(cams: Seq<CameraRecord>, cols: int) -> int {
    (cols - camera_x(cams)) / 2
}

/// The vertical screen translation that centers the camera in a grid of
/// `rows` rows.  The sign differs from `camera_offset_x` because row indices
/// grow downward while world y grows upward.
pub open spec fn camera_offset_y(cams: Seq<CameraRecord>, rows: int) -> int {
    (camera_y(cams) + rows) / 2
}

/// Compute both camera offsets for the current camera set and grid size.
pub fn camera_offset(cams: &Vec<CameraRecord>, cols: usize, rows: usize) -> (off: (i128, i128))
    ensures
        off.0 == camera_offset_x(cams@, cols as int),
        off.1 == camera_offset_y(cams@, rows as int),
{
    let (cx, cy): (i64, i64) = if cams.len() == 1 {
        (cams[0].x, cams[0].y)
    } else {
        (0, 0)
    };
    let ox = floor_div2(cols as i128 - cx as i128);
    let oy = floor_div2(cy as i128 + rows as i128);
    (ox, oy)
}

} // verus!
