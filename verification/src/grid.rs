//! The character grid: a fixed H x W array of display cells.
//!
//! Each cell pairs a code-point byte with an attribute byte. On the device,
//! every access to a cell is externally observable, so each cell is held in a
//! `volatile::Volatile` wrapper and every read and write goes through a
//! volatile access; the compiler may not coalesce or elide them. Those
//! per-cell accesses are the only trusted calls of this crate; everything
//! above them is verified against the grid's contents `grid_cells`.

use vstd::prelude::*;
use volatile::Volatile;
use crate::color::ColorCode;

verus! {

/// Number of rows of the grid. Row 0 is the topmost visible row, row
/// `BUFFER_HEIGHT - 1` the bottommost, the one being written to.
pub const BUFFER_HEIGHT: usize = 25;

/// Number of columns of the grid.
pub const BUFFER_WIDTH: usize = 80;

/// One display cell as laid out on the device: the code-point byte
/// immediately followed by the attribute byte.
#[derive(Debug, Clone, Copy, PartialEq, Eq)]
pub(crate) struct ScreenChar {
    pub(crate) ascii_char: u8,
    pub(crate) color_code: ColorCode,
}

/// The cell grid. The backing store is a rectangle of volatile cells; it is
/// opaque to the verifier, which sees the contents only through
/// [`grid_cells`] and the contracts of the access methods below.
#[verifier::external_body]
pub struct Grid {
    cells: Vec<Vec<Volatile<ScreenChar>>>,
}

/// The contents of the grid's volatile cells, row by row: element `(r, c)`
/// is the (code point, attribute) pair held by the cell at row `r`, column
/// `c`. The access methods of [`Grid`] state their effect in terms of this
/// sequence.
pub uninterp spec fn grid_cells(g: Grid) -> Seq<Seq<(u8, u8)>>;

impl Grid {
    /// Relies on `volatile::Volatile::new`: the wrapper holds exactly the
    /// value it was constructed with. Builds a `rows` by `cols` grid whose
    /// every cell holds the pair `(code_point, attribute)`.
    #[verifier::external_body]
    pub(crate) fn new_filled(rows: usize, cols: usize, code_point: u8, attribute: u8) -> (g: Grid)
        ensures
            grid_cells(g).len() == rows,
            forall|r: int| 0 <= r < rows ==> (#[trigger] grid_cells(g)[r]).len() == cols,
            forall|r: int, c: int|
                0 <= r < rows && 0 <= c < cols ==> #[trigger] grid_cells(g)[r][c] == (
                code_point,
                attribute,
                ),
    {
        let fill = ScreenChar { ascii_char: code_point, color_code: ColorCode(attribute) };
        let mut cells = Vec::new();
        for _r in 0..rows {
            let mut row = Vec::new();
            for _c in 0..cols {
                row.push(Volatile::new(fill));
            }
            cells.push(row);
        }
        Grid { cells }
    }

    /// Relies on `volatile::Volatile::read`: a volatile read returns a copy
    /// of the contained value and never panics.
    #[verifier::external_body]
    pub(crate) fn read_cell(&self, row: usize, col: usize) -> (r: (u8, u8))
        requires
            row < grid_cells(*self).len(),
            col < grid_cells(*self)[row as int].len(),
        ensures
            r == grid_cells(*self)[row as int][col as int],
    {
        let sc = self.cells[row][col].read();
        (sc.ascii_char, sc.color_code.0)
    }

    /// Relies on `volatile::Volatile::write`: a volatile write sets the
    /// contained value to the given one and never panics.
    #[verifier::external_body]
    pub(crate) fn write_cell(&mut self, row: usize, col: usize, code_point: u8, attribute: u8)
        requires
            row < grid_cells(*old(self)).len(),
            col < grid_cells(*old(self))[row as int].len(),
        ensures
            grid_cells(*final(self)) == grid_cells(*old(self)).update(
                row as int,
                grid_cells(*old(self))[row as int].update(col as int, (code_point, attribute)),
            ),
    {
        let sc = ScreenChar { ascii_char: code_point, color_code: ColorCode(attribute) };
        self.cells[row][col].write(sc);
    }
}

} // verus!
