use vstd::prelude::*;

use crate::grid::{empty_cell, empty_grid, grid_wf, written, TermCell};

verus! {

/// The frame buffer: a screen-sized grid of cells owned by the render
/// subsystem.  Every frame is recomputed from scratch into it; a resize
/// replaces it wholesale with an empty grid of the new dimensions.
pub struct TermBuffer {
    cells: Vec<Vec<TermCell>>,
    cols: usize,
    rows: usize,
}

impl TermBuffer {
    /// The mathematical contents, indexed `grid()[row][col]`.
    pub closed spec fn grid(&self) -> Seq<Seq<TermCell>> {
        self.cells@.map_values(|row: Vec<TermCell>| row@)
    }

    pub closed spec fn spec_cols(&self) -> int {
        self.cols as int
    }

    pub closed spec fn spec_rows(&self) -> int {
        self.rows as int
    }

    pub open spec fn wf(&self) -> bool {
        grid_wf(self.grid(), self.spec_cols(), self.spec_rows())
    }

    fn empty_row(cols: usize) -> (row: Vec<TermCell>)
        ensures
            row@ == Seq::new(cols as nat, |c: int| empty_cell()),
    {
        let mut row: Vec<TermCell> = Vec::new();
        let mut c: usize = 0;
        while c < cols
            invariant
                c <= cols,
                row@.len() == c,
                forall|i: int| 0 <= i < c ==> row@[i] == empty_cell(),
            decreases cols - c,
        {
            row.push(TermCell { glyph: ' ', depth: i64::MIN });
            c = c + 1;
        }
        proof {
            assert(row@ =~= Seq::new(cols as nat, |c: int| empty_cell()));
        }
        row
    }

    fn empty_cells(cols: usize, rows: usize) -> (cells: Vec<Vec<TermCell>>)
        ensures
            cells@.map_values(|row: Vec<TermCell>| row@) == empty_grid(
                cols as nat,
                rows as nat,
            ),
    {
        let mut cells: Vec<Vec<TermCell>> = Vec::new();
        let mut r: usize = 0;
        while r < rows
            invariant
                r <= rows,
                cells@.len() == r,
                forall|i: int| 0 <= i < r ==> (#[trigger] cells@[i])@ == Seq::new(
                    cols as nat,
                    |c: int| empty_cell(),
                ),
            decreases rows - r,
        {
            cells.push(Self::empty_row(cols));
            r = r + 1;
        }
        proof {
            assert(cells@.map_values(|row: Vec<TermCell>| row@) =~= empty_grid(
                cols as nat,
                rows as nat,
            ));
        }
        cells
    }

    /// Allocate a buffer of the given dimensions, every cell empty.
    pub fn new(cols: usize, rows: usize) -> (buf: TermBuffer)
        ensures
            buf.wf(),
            buf.spec_cols() == cols,
            buf.spec_rows() == rows,
            buf.grid() == empty_grid(cols as nat, rows as nat),
    {
        let buf = TermBuffer { cells: Self::empty_cells(cols, rows), cols, rows };
        buf
    }

    /// Current dimensions as (columns, rows).
    pub fn size(&self) -> (size: (usize, usize))
        ensures
            size.0 == self.spec_cols(),
            size.1 == self.spec_rows(),
    {
        (self.cols, self.rows)
    }

    /// Depth-tested write of one glyph.  Bounds are the caller's
    /// responsibility: writes must be pre-culled to the grid.
    pub fn write(&mut self, col: usize, row: usize, glyph: char, depth: i64)
        requires
            old(self).wf(),
            col < old(self).spec_cols(),
            row < old(self).spec_rows(),
        ensures
            final(self).wf(),
            final(self).spec_cols() == old(self).spec_cols(),
            final(self).spec_rows() == old(self).spec_rows(),
            final(self).grid() == written(old(self).grid(), col as int, row as int, glyph, depth),
    {
        proof {
            assert(self.grid().len() == self.cells@.len());
            assert(self.grid()[row as int] == self.cells@[row as int]@);
        }
        let cur: TermCell = self.cells[row][col];
        if depth >= cur.depth {
            self.cells[row][col] = TermCell { glyph, depth };
        }
        proof {
            assert(self.grid() =~= written(
                old(self).grid(),
                col as int,
                row as int,
                glyph,
                depth,
            ));
        }
    }

    /// Hand the frame out for display and clear the buffer, so that the next
    /// frame is computed afresh.  The result holds the grid's glyphs row by
    /// row, in row-major order.
    pub fn flush(&mut self) -> (out: Vec<Vec<char>>)
        requires
            old(self).wf(),
        ensures
            final(self).wf(),
            final(self).spec_cols() == old(self).spec_cols(),
            final(self).spec_rows() == old(self).spec_rows(),
            out@.len() == old(self).spec_rows(),
            forall|r: int|
                0 <= r < old(self).spec_rows() ==> (#[trigger] out@[r])@ == old(self).grid()[r]
                    .map_values(|cell: TermCell| cell.glyph),
            final(self).grid() == empty_grid(
                old(self).spec_cols() as nat,
                old(self).spec_rows() as nat,
            ),
    {
        let mut out: Vec<Vec<char>> = Vec::new();
        let mut r: usize = 0;
        while r < self.rows
            invariant
                self == old(self),
                self.wf(),
                r <= self.rows,
                out@.len() == r,
                forall|i: int|
                    0 <= i < r ==> (#[trigger] out@[i])@ == self.grid()[i].map_values(
                        |cell: TermCell| cell.glyph,
                    ),
            decreases self.rows - r,
        {
            let row_cells = &self.cells[r];
            let mut row_out: Vec<char> = Vec::new();
            let mut c: usize = 0;
            while c < row_cells.len()
                invariant
                    self == old(self),
                    self.wf(),
                    r < self.rows,
                    row_cells == &self.cells[r as int],
                    c <= row_cells@.len(),
                    row_out@.len() == c,
                    forall|j: int| 0 <= j < c ==> row_out@[j] == row_cells@[j].glyph,
                decreases row_cells@.len() - c,
            {
                row_out.push(row_cells[c].glyph);
                c = c + 1;
            }
            proof {
                assert(row_out@ =~= self.grid()[r as int].map_values(
                    |cell: TermCell| cell.glyph,
                ));
            }
            out.push(row_out);
            r = r + 1;
        }
        self.cells = Self::empty_cells(self.cols, self.rows);
        out
    }

    /// Replace the buffer by an empty one of the given dimensions, losing all
    /// prior content.
    pub fn resize(&mut self, cols: usize, rows: usize)
        ensures
            final(self).wf(),
            final(self).spec_cols() == cols,
            final(self).spec_rows() == rows,
            final(self).grid() == empty_grid(cols as nat, rows as nat),
    {
        *self = Self::new(cols, rows);
    }
}

} // verus!
