use vstd::prelude::*;

verus! {

/// One character cell of the frame grid: the glyph shown there and the depth
/// of the contribution that produced it.  Depths are plain integer keys; a
/// larger key is closer to the viewer.  `i64::MIN` is the depth of an empty
/// cell, below every drawable contribution.
#[derive(Clone, Copy, PartialEq, Eq, Structural, Debug)]
pub struct TermCell {
    pub glyph: char,
    pub depth: i64,
}

/// The cell every buffer position holds before anything is drawn onto it.
pub open spec fn empty_cell() -> TermCell {
    TermCell { glyph: ' ', depth: i64::MIN }
}

/// A grid of `rows` rows, each `cols` cells wide, indexed `g[row][col]`.
pub open spec fn grid_wf(g: Seq<Seq<TermCell>>, cols: int, rows: int) -> bool {
    &&& g.len() == rows
    &&& forall|r: int| 0 <= r < rows ==> (#[trigger] g[r]).len() == cols
}

/// An all-empty grid of the given dimensions.
pub open spec fn empty_grid(cols: nat, rows: nat) -> Seq<Seq<TermCell>> {
    Seq::new(rows, |r: int| Seq::new(cols, |c: int| empty_cell()))
}

/// The depth-tested write primitive: the cell at (col, row) is replaced
/// exactly when the new contribution's depth is at least the cell's current
/// depth, so of two contributions at one cell the deeper one shows, and on a
/// tie the one written later.
pub open spec fn written(
    g: Seq<Seq<TermCell>>,
    col: int,
    row: int,
    glyph: char,
    depth: i64,
) -> Seq<Seq<TermCell>> {
    if depth >= g[row][col].depth {
        g.update(row, g[row].update(col, TermCell { glyph, depth }))
    } else {
        g
    }
}

} // verus!
