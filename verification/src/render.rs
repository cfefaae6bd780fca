use vstd::prelude::*;

use crate::buffer::TermBuffer;
use crate::grid::{written, TermCell};
use crate::project::{camera_offset, camera_offset_x, camera_offset_y};
use crate::records::{CameraRecord, SpriteRecord, TermTextAlign, TextRecord};
use vstd::std_specs::iter::IteratorSpec;

verus! {

broadcast use vstd::string::axiom_spec_iter, vstd::string::next_postcondition;

/// The screen column a sprite projects to: its world x, doubled in wide
/// mode, shifted by the camera offset.
pub open spec fn sprite_col(s: SpriteRecord, off_x: int, wide: bool) -> int {
    (if wide { 2 * s.x } else { s.x as int }) + off_x
}

/// The screen row a sprite projects to: world y is inverted, because world y
/// grows upward while row indices grow downward.
pub open spec fn sprite_row(s: SpriteRecord, off_y: int) -> int {
    off_y - s.y
}

/// One sprite's effect on the grid: its glyph is depth-tested into its
/// projected cell when that cell lies in the grid and its depth clears the
/// minimum-depth threshold; otherwise the grid is untouched.
pub open spec fn sprite_applied(
    g: Seq<Seq<TermCell>>,
    s: SpriteRecord,
    off_x: int,
    off_y: int,
    wide: bool,
    cols: int,
    rows: int,
    minz: i64,
) -> Seq<Seq<TermCell>> {
    let c = sprite_col(s, off_x, wide);
    let r = sprite_row(s, off_y);
    if 0 <= c < cols && 0 <= r < rows && s.depth > minz {
        written(g, c, r, s.glyph.0, s.depth)
    } else {
        g
    }
}

/// All sprites applied in record order: earlier records first, so that a
/// later record wins a depth tie.
pub open spec fn sprites_applied(
    g: Seq<Seq<TermCell>>,
    ss: Seq<SpriteRecord>,
    off_x: int,
    off_y: int,
    wide: bool,
    cols: int,
    rows: int,
    minz: i64,
) -> Seq<Seq<TermCell>>
    decreases ss.len(),
{
    if ss.len() == 0 {
        g
    } else {
        sprite_applied(
            sprites_applied(g, ss.drop_last(), off_x, off_y, wide, cols, rows, minz),
            ss.last(),
            off_x,
            off_y,
            wide,
            cols,
            rows,
            minz,
        )
    }
}

/// The number of characters a text run places, one grid cell each.
pub open spec fn text_len(t: TextRecord) -> int {
    t.text.0@.len() as int
}

/// The column of a text run's first character: the projected anchor shifted
/// back by the alignment - not at all, by half the run's length, or by the
/// whole length.
pub open spec fn text_col(t: TextRecord, off_x: int) -> int {
    let anchor = t.x + off_x;
    match t.align {
        TermTextAlign::LEFT => anchor,
        TermTextAlign::CENTER => anchor - text_len(t) / 2,
        TermTextAlign::RIGHT => anchor - text_len(t),
    }
}

/// The screen row of a text run, inverted like a sprite's.
pub open spec fn text_row(t: TextRecord, off_y: int) -> int {
    off_y - t.y
}

/// A text run is culled as a whole when its span lies wholly left of the
/// grid or above it, or its start lies past the right or bottom edge.
pub open spec fn text_culled(
    t: TextRecord,
    off_x: int,
    off_y: int,
    cols: int,
    rows: int,
) -> bool {
    let x = text_col(t, off_x);
    let y = text_row(t, off_y);
    x + text_len(t) < 0 || y < 0 || x > cols || y > rows
}

/// The first `n` characters of a text run written left to right, each
/// depth-tested into its own column, and each skipped alone when its column
/// (or the run's row) falls outside the grid or its depth misses the
/// threshold.
pub open spec fn text_prefix_applied(
    g: Seq<Seq<TermCell>>,
    chars: Seq<char>,
    x: int,
    y: int,
    depth: i64,
    n: int,
    cols: int,
    rows: int,
    minz: i64,
) -> Seq<Seq<TermCell>>
    decreases n,
{
    if n <= 0 {
        g
    } else {
        let g1 = text_prefix_applied(g, chars, x, y, depth, n - 1, cols, rows, minz);
        let c = x + (n - 1);
        if 0 <= c < cols && y < rows && depth > minz {
            written(g1, c, y, chars[n - 1], depth)
        } else {
            g1
        }
    }
}

/// One text run's effect on the grid.
pub open spec fn text_applied(
    g: Seq<Seq<TermCell>>,
    t: TextRecord,
    off_x: int,
    off_y: int,
    cols: int,
    rows: int,
    minz: i64,
) -> Seq<Seq<TermCell>> {
    if text_culled(t, off_x, off_y, cols, rows) {
        g
    } else {
        text_prefix_applied(
            g,
            t.text.0@,
            text_col(t, off_x),
            text_row(t, off_y),
            t.depth,
            text_len(t),
            cols,
            rows,
            minz,
        )
    }
}

/// All text runs applied in record order, like the sprites.
pub open spec fn texts_applied(
    g: Seq<Seq<TermCell>>,
    ts: Seq<TextRecord>,
    off_x: int,
    off_y: int,
    cols: int,
    rows: int,
    minz: i64,
) -> Seq<Seq<TermCell>>
    decreases ts.len(),
{
    if ts.len() == 0 {
        g
    } else {
        text_applied(
            texts_applied(g, ts.drop_last(), off_x, off_y, cols, rows, minz),
            ts.last(),
            off_x,
            off_y,
            cols,
            rows,
            minz,
        )
    }
}

/// One whole frame composed onto a grid: the camera offsets are computed
/// from the camera set, then every sprite is applied in order, then every
/// text run.
pub open spec fn frame_rendered(
    g: Seq<Seq<TermCell>>,
    sprites: Seq<SpriteRecord>,
    texts: Seq<TextRecord>,
    cams: Seq<CameraRecord>,
    wide: bool,
    minz: i64,
    cols: int,
    rows: int,
) -> Seq<Seq<TermCell>> {
    let off_x = camera_offset_x(cams, cols);
    let off_y = camera_offset_y(cams, rows);
    texts_applied(
        sprites_applied(g, sprites, off_x, off_y, wide, cols, rows, minz),
        texts,
        off_x,
        off_y,
        cols,
        rows,
        minz,
    )
}

/// Project one sprite and depth-test its glyph into the buffer.
fn apply_sprite_exec(
    buffer: &mut TermBuffer,
    s: &SpriteRecord,
    off_x: i128,
    off_y: i128,
    wide: bool,
    minz: i64,
)
    requires
        old(buffer).wf(),
        -0x100000000000000000000 <= off_x <= 0x100000000000000000000,
        -0x100000000000000000000 <= off_y <= 0x100000000000000000000,
    ensures
        final(buffer).wf(),
        final(buffer).spec_cols() == old(buffer).spec_cols(),
        final(buffer).spec_rows() == old(buffer).spec_rows(),
        final(buffer).grid() == sprite_applied(
            old(buffer).grid(),
            *s,
            off_x as int,
            off_y as int,
            wide,
            old(buffer).spec_cols(),
            old(buffer).spec_rows(),
            minz,
        ),
{
    let (cols, rows) = buffer.size();
    let c: i128 = (if wide { 2 * (s.x as i128) } else { s.x as i128 }) + off_x;
    let r: i128 = off_y - (s.y as i128);
    if 0 <= c && c < cols as i128 && 0 <= r && r < rows as i128 && s.depth > minz {
        buffer.write(c as usize, r as usize, s.glyph.0, s.depth);
    }
}

/// Project one text run, align it, and depth-test its characters into the
/// buffer one column at a time.
fn apply_text_exec(buffer: &mut TermBuffer, t: &TextRecord, off_x: i128, off_y: i128, minz: i64)
    requires
        old(buffer).wf(),
        -0x100000000000000000000 <= off_x <= 0x100000000000000000000,
        -0x100000000000000000000 <= off_y <= 0x100000000000000000000,
    ensures
        final(buffer).wf(),
        final(buffer).spec_cols() == old(buffer).spec_cols(),
        final(buffer).spec_rows() == old(buffer).spec_rows(),
        final(buffer).grid() == text_applied(
            old(buffer).grid(),
            *t,
            off_x as int,
            off_y as int,
            old(buffer).spec_cols(),
            old(buffer).spec_rows(),
            minz,
        ),
{
    let (cols, rows) = buffer.size();
    let glyphs = chars_of(t.text.0.as_str());
    let len: usize = glyphs.len();
    let anchor: i128 = (t.x as i128) + off_x;
    let x: i128 = match t.align {
        TermTextAlign::LEFT => anchor,
        TermTextAlign::CENTER => anchor - (len / 2) as i128,
        TermTextAlign::RIGHT => anchor - (len as i128),
    };
    let y: i128 = off_y - (t.y as i128);
    if x + (len as i128) < 0 || y < 0 || x > cols as i128 || y > rows as i128 {
        return;
    }
    let ghost g0 = buffer.grid();
    let mut j: usize = 0;
    while j < len
        invariant
            buffer.wf(),
            buffer.spec_cols() == cols,
            buffer.spec_rows() == rows,
            j <= len,
            len == glyphs@.len(),
            glyphs@ == t.text.0@,
            x == text_col(*t, off_x as int),
            y == text_row(*t, off_y as int),
            0 <= y,
            -0x1000000000000000000000 <= x <= 0x1000000000000000000000,
            buffer.grid() == text_prefix_applied(
                g0,
                t.text.0@,
                x as int,
                y as int,
                t.depth,
                j as int,
                cols as int,
                rows as int,
                minz,
            ),
        decreases len - j,
    {
        let c: i128 = x + (j as i128);
        if 0 <= c && c < cols as i128 && y < rows as i128 && t.depth > minz {
            buffer.write(c as usize, y as usize, glyphs[j], t.depth);
        }
        j = j + 1;
    }
}

/// Compose one tick's records into the buffer: every sprite is projected and
/// depth-tested in record order, then every text run, all through the camera
/// offset of the tick's camera set.
pub fn render_frame(
    buffer: &mut TermBuffer,
    sprites: &Vec<SpriteRecord>,
    texts: &Vec<TextRecord>,
    cameras: &Vec<CameraRecord>,
    wide: bool,
    minz: i64,
)
    requires
        old(buffer).wf(),
    ensures
        final(buffer).wf(),
        final(buffer).spec_cols() == old(buffer).spec_cols(),
        final(buffer).spec_rows() == old(buffer).spec_rows(),
        final(buffer).grid() == frame_rendered(
            old(buffer).grid(),
            sprites@,
            texts@,
            cameras@,
            wide,
            minz,
            old(buffer).spec_cols(),
            old(buffer).spec_rows(),
        ),
{
    let (cols, rows) = buffer.size();
    let (off_x, off_y) = camera_offset(cameras, cols, rows);
    let ghost g0 = buffer.grid();
    let mut i: usize = 0;
    while i < sprites.len()
        invariant
            buffer.wf(),
            buffer.spec_cols() == cols,
            buffer.spec_rows() == rows,
            i <= sprites@.len(),
            -0x100000000000000000000 <= off_x <= 0x100000000000000000000,
            -0x100000000000000000000 <= off_y <= 0x100000000000000000000,
            buffer.grid() == sprites_applied(
                g0,
                sprites@.take(i as int),
                off_x as int,
                off_y as int,
                wide,
                cols as int,
                rows as int,
                minz,
            ),
        decreases sprites@.len() - i,
    {
        apply_sprite_exec(buffer, &sprites[i], off_x, off_y, wide, minz);
        proof {
            assert(sprites@.take(i as int + 1).drop_last() =~= sprites@.take(i as int));
            assert(sprites@.take(i as int + 1).last() == sprites@[i as int]);
        }
        i = i + 1;
    }
    proof {
        assert(sprites@.take(sprites@.len() as int) =~= sprites@);
    }
    let ghost g1 = buffer.grid();
    let mut k: usize = 0;
    while k < texts.len()
        invariant
            buffer.wf(),
            buffer.spec_cols() == cols,
            buffer.spec_rows() == rows,
            k <= texts@.len(),
            -0x100000000000000000000 <= off_x <= 0x100000000000000000000,
            -0x100000000000000000000 <= off_y <= 0x100000000000000000000,
            buffer.grid() == texts_applied(
                g1,
                texts@.take(k as int),
                off_x as int,
                off_y as int,
                cols as int,
                rows as int,
                minz,
            ),
        decreases texts@.len() - k,
    {
        apply_text_exec(buffer, &texts[k], off_x, off_y, minz);
        proof {
            assert(texts@.take(k as int + 1).drop_last() =~= texts@.take(k as int));
            assert(texts@.take(k as int + 1).last() == texts@[k as int]);
        }
        k = k + 1;
    }
    proof {
        assert(texts@.take(texts@.len() as int) =~= texts@);
    }
}

/// The characters of a string, one per grid cell to be placed.
pub fn chars_of(s: &str) -> (out: Vec<char>)
    ensures
        out@ == s@,
{
    let mut it = s.chars();
    let mut out: Vec<char> = Vec::new();
    loop
        invariant_except_break
            out@ + it.remaining() == s@,
            it.decrease() is Some,
        ensures
            out@ == s@,
        decreases it.decrease()->0,
    {
        match it.next() {
            Some(c) => {
                out.push(c);
                proof {
                    assert(out@ + it.remaining() =~= s@);
                }
            },
            None => {
                proof {
                    assert(out@ =~= s@);
                }
                break;
            },
        }
    }
    out
}

} // verus!
