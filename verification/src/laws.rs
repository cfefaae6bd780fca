use vstd::prelude::*;

use crate::grid::{grid_wf, written, TermCell};
use crate::project::{after_resize, TermSize};
use crate::records::{CameraRecord, SpriteRecord, TextRecord};
use crate::render::{
    frame_rendered, sprite_applied, sprite_col, sprite_row, text_applied, text_col, text_culled,
    text_len, text_prefix_applied, text_row,
};

verus! {

/// Of two depth-tested writes aimed at one cell, the deeper one shows in the
/// end, whichever of the two orders they arrive in - as long as both beat
/// the depth the cell already holds.
pub proof fn lemma_deeper_write_wins(
    g: Seq<Seq<TermCell>>,
    col: int,
    row: int,
    gl1: char,
    d1: i64,
    gl2: char,
    d2: i64,
    cols: int,
    rows: int,
)
    requires
        grid_wf(g, cols, rows),
        0 <= col < cols,
        0 <= row < rows,
        d1 > d2,
        d2 >= g[row][col].depth,
    ensures
        written(written(g, col, row, gl2, d2), col, row, gl1, d1)[row][col] == (TermCell {
            glyph: gl1,
            depth: d1,
        }),
        written(written(g, col, row, gl1, d1), col, row, gl2, d2)[row][col] == (TermCell {
            glyph: gl1,
            depth: d1,
        }),
{
}

/// Of two equal-depth writes aimed at one cell, the one written later shows:
/// the depth test keeps a tying newcomer.
pub proof fn lemma_equal_depth_later_write_wins(
    g: Seq<Seq<TermCell>>,
    col: int,
    row: int,
    gl1: char,
    gl2: char,
    d: i64,
    cols: int,
    rows: int,
)
    requires
        grid_wf(g, cols, rows),
        0 <= col < cols,
        0 <= row < rows,
        d >= g[row][col].depth,
    ensures
        written(written(g, col, row, gl1, d), col, row, gl2, d)[row][col] == (TermCell {
            glyph: gl2,
            depth: d,
        }),
{
}

/// A depth-tested write touches no cell but its own.
pub proof fn lemma_write_touches_one_cell(
    g: Seq<Seq<TermCell>>,
    col: int,
    row: int,
    gl: char,
    d: i64,
    cols: int,
    rows: int,
    c: int,
    r: int,
)
    requires
        grid_wf(g, cols, rows),
        0 <= col < cols,
        0 <= row < rows,
        0 <= c < cols,
        0 <= r < rows,
        (c, r) != (col, row),
    ensures
        written(g, col, row, gl, d)[r][c] == g[r][c],
{
}

/// The deeper of two sprites aimed at one in-view cell shows there in the
/// end, whichever order the two are processed in - as long as both clear the
/// threshold and the cell's current depth.
pub proof fn lemma_deeper_sprite_wins(
    g: Seq<Seq<TermCell>>,
    s1: SpriteRecord,
    s2: SpriteRecord,
    off_x: int,
    off_y: int,
    wide: bool,
    cols: int,
    rows: int,
    minz: i64,
)
    requires
        grid_wf(g, cols, rows),
        sprite_col(s1, off_x, wide) == sprite_col(s2, off_x, wide),
        sprite_row(s1, off_y) == sprite_row(s2, off_y),
        0 <= sprite_col(s1, off_x, wide) < cols,
        0 <= sprite_row(s1, off_y) < rows,
        s1.depth > s2.depth > minz,
        s2.depth >= g[sprite_row(s1, off_y)][sprite_col(s1, off_x, wide)].depth,
    ensures
        sprite_applied(
            sprite_applied(g, s2, off_x, off_y, wide, cols, rows, minz),
            s1,
            off_x,
            off_y,
            wide,
            cols,
            rows,
            minz,
        )[sprite_row(s1, off_y)][sprite_col(s1, off_x, wide)] == (TermCell {
            glyph: s1.glyph.0,
            depth: s1.depth,
        }),
        sprite_applied(
            sprite_applied(g, s1, off_x, off_y, wide, cols, rows, minz),
            s2,
            off_x,
            off_y,
            wide,
            cols,
            rows,
            minz,
        )[sprite_row(s1, off_y)][sprite_col(s1, off_x, wide)] == (TermCell {
            glyph: s1.glyph.0,
            depth: s1.depth,
        }),
{
    lemma_deeper_write_wins(
        g,
        sprite_col(s1, off_x, wide),
        sprite_row(s1, off_y),
        s1.glyph.0,
        s1.depth,
        s2.glyph.0,
        s2.depth,
        cols,
        rows,
    );
}

/// Of two equal-depth sprites aimed at one in-view cell, the one processed
/// later shows: processing order is the record order.
pub proof fn lemma_equal_depth_later_sprite_wins(
    g: Seq<Seq<TermCell>>,
    s1: SpriteRecord,
    s2: SpriteRecord,
    off_x: int,
    off_y: int,
    wide: bool,
    cols: int,
    rows: int,
    minz: i64,
)
    requires
        grid_wf(g, cols, rows),
        sprite_col(s1, off_x, wide) == sprite_col(s2, off_x, wide),
        sprite_row(s1, off_y) == sprite_row(s2, off_y),
        0 <= sprite_col(s1, off_x, wide) < cols,
        0 <= sprite_row(s1, off_y) < rows,
        s1.depth == s2.depth,
        s1.depth > minz,
        s1.depth >= g[sprite_row(s1, off_y)][sprite_col(s1, off_x, wide)].depth,
    ensures
        sprite_applied(
            sprite_applied(g, s1, off_x, off_y, wide, cols, rows, minz),
            s2,
            off_x,
            off_y,
            wide,
            cols,
            rows,
            minz,
        )[sprite_row(s1, off_y)][sprite_col(s1, off_x, wide)] == (TermCell {
            glyph: s2.glyph.0,
            depth: s2.depth,
        }),
{
    lemma_equal_depth_later_write_wins(
        g,
        sprite_col(s1, off_x, wide),
        sprite_row(s1, off_y),
        s1.glyph.0,
        s2.glyph.0,
        s1.depth,
        cols,
        rows,
    );
}

/// A sprite whose projected cell lies outside the grid writes nothing: the
/// whole buffer is untouched.
pub proof fn lemma_offscreen_sprite_writes_nothing(
    g: Seq<Seq<TermCell>>,
    s: SpriteRecord,
    off_x: int,
    off_y: int,
    wide: bool,
    cols: int,
    rows: int,
    minz: i64,
)
    requires
        !(0 <= sprite_col(s, off_x, wide) < cols) || !(0 <= sprite_row(s, off_y) < rows),
    ensures
        sprite_applied(g, s, off_x, off_y, wide, cols, rows, minz) == g,
{
}

/// Helper for the offscreen text law: when a run's row misses the grid, or
/// every one of its columns does, none of its characters lands.
proof fn lemma_text_prefix_offscreen(
    g: Seq<Seq<TermCell>>,
    chars: Seq<char>,
    x: int,
    y: int,
    depth: i64,
    n: int,
    cols: int,
    rows: int,
    minz: i64,
)
    requires
        y >= rows || x >= cols || x + n <= 0,
    ensures
        text_prefix_applied(g, chars, x, y, depth, n, cols, rows, minz) == g,
    decreases n,
{
    if n > 0 {
        lemma_text_prefix_offscreen(g, chars, x, y, depth, n - 1, cols, rows, minz);
    }
}

/// A text run whose whole extent lies outside the grid writes nothing,
/// whether the span is culled outright or every character misses on its own.
pub proof fn lemma_offscreen_text_writes_nothing(
    g: Seq<Seq<TermCell>>,
    t: TextRecord,
    off_x: int,
    off_y: int,
    cols: int,
    rows: int,
    minz: i64,
)
    requires
        text_row(t, off_y) < 0 || text_row(t, off_y) >= rows || text_col(t, off_x) >= cols
            || text_col(t, off_x) + text_len(t) <= 0,
    ensures
        text_applied(g, t, off_x, off_y, cols, rows, minz) == g,
{
    if !text_culled(t, off_x, off_y, cols, rows) {
        lemma_text_prefix_offscreen(
            g,
            t.text.0@,
            text_col(t, off_x),
            text_row(t, off_y),
            t.depth,
            text_len(t),
            cols,
            rows,
            minz,
        );
    }
}

/// A tick with no drawable records composes nothing: the grid after the
/// frame is the grid before it, so flushing shows exactly what was there -
/// on a fresh or freshly cleared buffer, the empty cell everywhere.
pub proof fn lemma_empty_frame_renders_nothing(
    g: Seq<Seq<TermCell>>,
    cams: Seq<CameraRecord>,
    wide: bool,
    minz: i64,
    cols: int,
    rows: int,
)
    ensures
        frame_rendered(
            g,
            Seq::<SpriteRecord>::empty(),
            Seq::<TextRecord>::empty(),
            cams,
            wide,
            minz,
            cols,
            rows,
        ) == g,
{
}

/// Resizing is idempotent: a second resize signal reporting the same size
/// leaves exactly the buffer the first left - empty cells at that size.
pub proof fn lemma_resize_idempotent(g: Seq<Seq<TermCell>>, size: TermSize)
    ensures
        after_resize(after_resize(g, size), size) == after_resize(g, size),
{
}

} // verus!
