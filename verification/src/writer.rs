//! The console writer: cursor tracking, byte translation, line wrap and
//! scroll-on-overflow over the cell grid.
//!
//! The whole observable state of the console is captured by [`WriterView`]:
//! the cursor column, the current attribute byte, and the grid contents. The
//! spec functions [`write_byte_spec`] and [`write_seq_spec`] say exactly how
//! each written byte transforms that state, and every public operation is
//! proved against them.

use vstd::prelude::*;
use vstd::string::{StrSliceExecFns, StringSliceAdditionalSpecFns};
use crate::color::{Color, ColorCode};
use crate::grid::{BUFFER_HEIGHT, BUFFER_WIDTH, Grid, grid_cells};

verus! {

/// The code point written into a cell in place of an input byte: the byte
/// itself for printable ASCII (`0x20..=0x7e`) and for newline, the sentinel
/// glyph `0xfe` for everything else. Total: no input byte is an error.
pub open spec fn code_point_spec(b: u8) -> u8 {
    if (0x20 <= b && b <= 0x7e) || b == 0x0a {
        b
    } else {
        0xfe
    }
}

/// Translates one input byte to the code point that is rendered for it.
#[verifier::when_used_as_spec(code_point_spec)]
pub fn code_point_for(byte: u8) -> (r: u8)
    ensures
        (0x20 <= byte && byte <= 0x7e) || byte == 0x0a ==> r == byte,
        !((0x20 <= byte && byte <= 0x7e) || byte == 0x0a) ==> r == 0xfe,
        r == code_point_spec(byte),
{
    if (0x20 <= byte && byte <= 0x7e) || byte == 0x0a {
        byte
    } else {
        0xfe
    }
}

/// The console state as the specifications see it.
pub ghost struct WriterView {
    /// The next column of the bottom row to be written, in `0..=BUFFER_WIDTH`.
    pub col: int,
    /// The current attribute byte, paired with every written code point.
    pub attr: u8,
    /// The grid contents, row by row, as (code point, attribute) pairs.
    pub grid: Seq<Seq<(u8, u8)>>,
}

/// A grid of the fixed dimensions.
pub open spec fn grid_wf(g: Seq<Seq<(u8, u8)>>) -> bool {
    &&& g.len() == BUFFER_HEIGHT
    &&& forall|r: int| 0 <= r < g.len() ==> (#[trigger] g[r]).len() == BUFFER_WIDTH
}

/// A well-formed console state: the grid has the fixed dimensions and the
/// cursor column never exceeds the width. The column may equal the width:
/// after the last cell of the bottom row is filled, the wrap happens only
/// when the next non-newline byte arrives.
pub open spec fn view_wf(v: WriterView) -> bool {
    &&& 0 <= v.col <= BUFFER_WIDTH
    &&& grid_wf(v.grid)
}

/// One row of blank cells: spaces, all carrying the attribute `attr`.
pub open spec fn blank_row(attr: u8) -> Seq<(u8, u8)> {
    Seq::new(BUFFER_WIDTH as nat, |c: int| (0x20u8, attr))
}

/// A whole grid of blank cells carrying the attribute `attr`.
pub open spec fn blank_grid(attr: u8) -> Seq<Seq<(u8, u8)>> {
    Seq::new(BUFFER_HEIGHT as nat, |r: int| blank_row(attr))
}

/// The grid after one scroll step: every row moves up by one (discarding the
/// old top row), and the bottom row becomes blank with the attribute `attr`.
pub open spec fn scrolled(g: Seq<Seq<(u8, u8)>>, attr: u8) -> Seq<Seq<(u8, u8)>> {
    g.subrange(1, g.len() as int).push(blank_row(attr))
}

/// The console state after one byte is written. A newline scrolls and resets
/// the column, unconditionally. Any other byte first scrolls if the bottom
/// row is full, then puts its code point, paired with the current attribute,
/// at the cursor position of the bottom row and advances the cursor.
pub open spec fn write_byte_spec(v: WriterView, b: u8) -> WriterView {
    if b == 0x0a {
        WriterView { col: 0, attr: v.attr, grid: scrolled(v.grid, v.attr) }
    } else {
        let g = if v.col >= BUFFER_WIDTH {
            scrolled(v.grid, v.attr)
        } else {
            v.grid
        };
        let c = if v.col >= BUFFER_WIDTH {
            0
        } else {
            v.col
        };
        WriterView {
            col: c + 1,
            attr: v.attr,
            grid: g.update(
                BUFFER_HEIGHT as int - 1,
                g[BUFFER_HEIGHT as int - 1].update(c, (code_point_spec(b), v.attr)),
            ),
        }
    }
}

/// The console state after the bytes of `s` are written in order, one by one.
pub open spec fn write_seq_spec(v: WriterView, s: Seq<u8>) -> WriterView
    decreases s.len(),
{
    if s.len() == 0 {
        v
    } else {
        write_seq_spec(write_byte_spec(v, s[0]), s.subrange(1, s.len() as int))
    }
}

/// Writing one byte preserves well-formedness.
pub proof fn lemma_write_byte_spec_wf(v: WriterView, b: u8)
    requires
        view_wf(v),
    ensures
        view_wf(write_byte_spec(v, b)),
{
}

/// Writing a sequence of bytes preserves well-formedness.
pub proof fn lemma_write_seq_spec_wf(v: WriterView, s: Seq<u8>)
    requires
        view_wf(v),
    ensures
        view_wf(write_seq_spec(v, s)),
    decreases s.len(),
{
    if s.len() > 0 {
        lemma_write_byte_spec_wf(v, s[0]);
        lemma_write_seq_spec_wf(write_byte_spec(v, s[0]), s.subrange(1, s.len() as int));
    }
}

/// Writing `s` and then one more byte `b` is writing `s.push(b)`.
pub proof fn lemma_write_seq_spec_snoc(v: WriterView, s: Seq<u8>, b: u8)
    ensures
        write_seq_spec(v, s.push(b)) == write_byte_spec(write_seq_spec(v, s), b),
    decreases s.len(),
{
    let t = s.push(b);
    if s.len() == 0 {
        assert(t[0] == b);
        assert(t.subrange(1, t.len() as int) =~= Seq::<u8>::empty());
        assert(write_seq_spec(v, t) == write_seq_spec(
            write_byte_spec(v, b),
            Seq::<u8>::empty(),
        ));
        assert(write_seq_spec(write_byte_spec(v, b), Seq::<u8>::empty()) == write_byte_spec(
            v,
            b,
        ));
        assert(write_seq_spec(v, s) == v);
    } else {
        assert(t[0] == s[0]);
        assert(t.subrange(1, t.len() as int) =~= s.subrange(1, s.len() as int).push(b));
        lemma_write_seq_spec_snoc(write_byte_spec(v, s[0]), s.subrange(1, s.len() as int), b);
        assert(write_seq_spec(v, t) == write_seq_spec(
            write_byte_spec(v, t[0]),
            t.subrange(1, t.len() as int),
        ));
        assert(write_seq_spec(v, s) == write_seq_spec(
            write_byte_spec(v, s[0]),
            s.subrange(1, s.len() as int),
        ));
    }
}

/// The console writer. It exclusively owns the grid for its whole lifetime:
/// nothing else reads or writes the cells while the writer is live.
pub struct Writer {
    column_position: usize,
    color_code: ColorCode,
    buffer: Grid,
}

impl View for Writer {
    type V = WriterView;

    closed spec fn view(&self) -> WriterView {
        WriterView {
            col: self.column_position as int,
            attr: self.color_code.0,
            grid: grid_cells(self.buffer),
        }
    }
}

impl Writer {
    /// The writer's invariant: its state is well-formed. Established by
    /// [`Writer::new`] and preserved by every operation.
    pub open spec fn wf(&self) -> bool {
        view_wf(self@)
    }

    /// A fresh console: cursor at column 0, the attribute packed from the
    /// two colors, and every cell of the grid blank with that attribute.
    pub fn new(foreground: Color, background: Color) -> (w: Writer)
        ensures
            w.wf(),
            w@.col == 0,
            w@.attr == (background.spec_value() << 4) | foreground.spec_value(),
            w@.grid == blank_grid(w@.attr),
    {
        let color_code = ColorCode::new(foreground, background);
        let buffer = Grid::new_filled(BUFFER_HEIGHT, BUFFER_WIDTH, 0x20, color_code.0);
        let w = Writer { column_position: 0, color_code, buffer };
        proof {
            assert(w@.grid =~~= blank_grid(w@.attr));
        }
        w
    }

    /// The next column of the bottom row to be written.
    pub fn cursor_column(&self) -> (r: usize)
        ensures
            r as int == self@.col,
    {
        self.column_position
    }

    /// The current attribute byte.
    pub fn attribute(&self) -> (r: u8)
        ensures
            r == self@.attr,
    {
        self.color_code.0
    }

    /// The (code point, attribute) pair currently held at the given cell.
    pub fn cell_at(&self, row: usize, col: usize) -> (r: (u8, u8))
        requires
            self.wf(),
            row < BUFFER_HEIGHT,
            col < BUFFER_WIDTH,
        ensures
            r == self@.grid[row as int][col as int],
    {
        self.buffer.read_cell(row, col)
    }

    /// Writes one byte: a newline scrolls and resets the cursor; any other
    /// byte is rendered at the cursor position of the bottom row (after a
    /// scroll, if that row was full) and the cursor advances.
    pub fn write_byte(&mut self, byte: u8)
        requires
            old(self).wf(),
        ensures
            final(self).wf(),
            final(self)@ == write_byte_spec(old(self)@, byte),
    {
        if byte == 0x0a {
            self.new_line();
        } else {
            if self.column_position >= BUFFER_WIDTH {
                self.new_line();
            }
            let row: usize = BUFFER_HEIGHT - 1;
            let col: usize = self.column_position;
            let attribute: u8 = self.color_code.0;
            self.buffer.write_cell(row, col, code_point_for(byte), attribute);
            self.column_position = col + 1;
        }
    }

    /// Writes every byte of `s` in order, one cell access per byte: each
    /// character becomes observable on the device individually, never as a
    /// batch. Multi-byte encoded characters are not reassembled; every byte
    /// outside printable ASCII is rendered as the sentinel glyph.
    pub fn write_string(&mut self, s: &str)
        requires
            old(self).wf(),
        ensures
            final(self).wf(),
            final(self)@ == write_seq_spec(old(self)@, s.spec_bytes()),
    {
        let bytes = s.as_bytes_vec();
        let ghost all: Seq<u8> = s.spec_bytes();
        let mut i: usize = 0;
        while i < bytes.len()
            invariant
                bytes@ == all,
                i <= bytes.len(),
                self.wf(),
                self@ == write_seq_spec(old(self)@, all.take(i as int)),
            decreases bytes.len() - i,
        {
            proof {
                assert(all.take(i + 1) =~= all.take(i as int).push(all[i as int]));
                lemma_write_seq_spec_snoc(old(self)@, all.take(i as int), all[i as int]);
            }
            self.write_byte(bytes[i]);
            i = i + 1;
        }
        proof {
            assert(all.take(bytes@.len() as int) =~= all);
        }
    }

    /// Scrolls the grid one step and resets the cursor to column 0: each row
    /// is copied into the row above it, cell by cell (the old top row is
    /// discarded), and the bottom row is cleared to blanks.
    fn new_line(&mut self)
        requires
            old(self).wf(),
        ensures
            final(self).wf(),
            final(self)@.col == 0,
            final(self)@.attr == old(self)@.attr,
            final(self)@.grid == scrolled(old(self)@.grid, old(self)@.attr),
    {
        let ghost g0 = self@.grid;
        let mut row: usize = 1;
        while row < BUFFER_HEIGHT
            invariant
                1 <= row <= BUFFER_HEIGHT,
                self.wf(),
                self@.attr == old(self)@.attr,
                self@.col == old(self)@.col,
                g0 == old(self)@.grid,
                grid_wf(g0),
                forall|r: int| 0 <= r < row - 1 ==> self@.grid[r] == g0[r + 1],
                forall|r: int| row - 1 <= r < BUFFER_HEIGHT ==> self@.grid[r] == g0[r],
            decreases BUFFER_HEIGHT - row,
        {
            let mut col: usize = 0;
            while col < BUFFER_WIDTH
                invariant
                    1 <= row < BUFFER_HEIGHT,
                    col <= BUFFER_WIDTH,
                    self.wf(),
                    self@.attr == old(self)@.attr,
                    self@.col == old(self)@.col,
                    g0 == old(self)@.grid,
                    grid_wf(g0),
                    forall|r: int| 0 <= r < row - 1 ==> self@.grid[r] == g0[r + 1],
                    forall|r: int| row <= r < BUFFER_HEIGHT ==> self@.grid[r] == g0[r],
                    forall|c: int|
                        0 <= c < col ==> #[trigger] self@.grid[row - 1][c] == g0[row as int][c],
                    forall|c: int|
                        col <= c < BUFFER_WIDTH ==> #[trigger] self@.grid[row - 1][c] == g0[row
                            - 1][c],
                decreases BUFFER_WIDTH - col,
            {
                let cell = self.buffer.read_cell(row, col);
                self.buffer.write_cell(row - 1, col, cell.0, cell.1);
                col = col + 1;
            }
            proof {
                assert(self@.grid[row - 1] =~= g0[row as int]);
            }
            row = row + 1;
        }
        self.clear_row(BUFFER_HEIGHT - 1);
        self.column_position = 0;
        proof {
            assert(self@.grid =~= scrolled(g0, old(self)@.attr));
        }
    }

    /// Clears one row to blank cells carrying the current attribute.
    fn clear_row(&mut self, row: usize)
        requires
            old(self).wf(),
            row < BUFFER_HEIGHT,
        ensures
            final(self).wf(),
            final(self)@.col == old(self)@.col,
            final(self)@.attr == old(self)@.attr,
            final(self)@.grid == old(self)@.grid.update(row as int, blank_row(old(self)@.attr)),
    {
        let attribute: u8 = self.color_code.0;
        let mut col: usize = 0;
        while col < BUFFER_WIDTH
            invariant
                col <= BUFFER_WIDTH,
                row < BUFFER_HEIGHT,
                self.wf(),
                self@.attr == old(self)@.attr,
                self@.col == old(self)@.col,
                attribute == old(self)@.attr,
                forall|r: int|
                    0 <= r < BUFFER_HEIGHT && r != row ==> self@.grid[r] == old(self)@.grid[r],
                forall|c: int|
                    0 <= c < col ==> #[trigger] self@.grid[row as int][c] == (0x20u8, attribute),
                forall|c: int|
                    col <= c < BUFFER_WIDTH ==> #[trigger] self@.grid[row as int][c] == old(
                        self,
                    )@.grid[row as int][c],
            decreases BUFFER_WIDTH - col,
        {
            self.buffer.write_cell(row, col, 0x20, attribute);
            col = col + 1;
        }
        proof {
            assert(self@.grid[row as int] =~= blank_row(old(self)@.attr));
            assert(self@.grid =~= old(self)@.grid.update(row as int, blank_row(old(self)@.attr)));
        }
    }
}

} // verus!
