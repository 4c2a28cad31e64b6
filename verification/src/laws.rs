//! Properties of the console, stated over the specification model and
//! proved once and for all. Each holds for every console state that
//! [`crate::writer::view_wf`] admits, so in particular for the state of any
//! [`crate::writer::Writer`].

use vstd::prelude::*;
use crate::grid::{BUFFER_HEIGHT, BUFFER_WIDTH};
use crate::writer::{
    WriterView, blank_row, code_point_spec, lemma_write_byte_spec_wf, lemma_write_seq_spec_wf,
    scrolled, view_wf, write_byte_spec, write_seq_spec,
};

verus! {

/// Writing one non-newline byte while the bottom row still has space puts
/// its code point, paired with the current attribute, at the cursor position
/// of the bottom row, advances the cursor by one, and touches no other cell.
pub proof fn lemma_write_byte_in_row(v: WriterView, b: u8)
    requires
        view_wf(v),
        b != 0x0a,
        v.col < BUFFER_WIDTH,
    ensures
        write_byte_spec(v, b).col == v.col + 1,
        write_byte_spec(v, b).attr == v.attr,
        write_byte_spec(v, b).grid.len() == BUFFER_HEIGHT,
        forall|r: int|
            0 <= r < BUFFER_HEIGHT - 1 ==> #[trigger] write_byte_spec(v, b).grid[r] == v.grid[r],
        write_byte_spec(v, b).grid[BUFFER_HEIGHT as int - 1] == v.grid[BUFFER_HEIGHT as int
            - 1].update(v.col, (code_point_spec(b), v.attr)),
{
}

/// Writing a sequence of non-newline bytes that fits on the rest of the
/// bottom row renders them left to right from the cursor position, advances
/// the cursor by the sequence's length, and leaves every other cell of the
/// bottom row -- and every other row -- untouched.
pub proof fn lemma_write_seq_in_row(v: WriterView, s: Seq<u8>)
    requires
        view_wf(v),
        forall|i: int| 0 <= i < s.len() ==> s[i] != 0x0a,
        v.col + s.len() <= BUFFER_WIDTH,
    ensures
        write_seq_spec(v, s).col == v.col + s.len(),
        write_seq_spec(v, s).attr == v.attr,
        write_seq_spec(v, s).grid.len() == BUFFER_HEIGHT,
        forall|r: int|
            0 <= r < BUFFER_HEIGHT - 1 ==> #[trigger] write_seq_spec(v, s).grid[r] == v.grid[r],
        forall|c: int|
            0 <= c < BUFFER_WIDTH && !(v.col <= c < v.col + s.len())
                ==> #[trigger] write_seq_spec(v, s).grid[BUFFER_HEIGHT as int - 1][c] == v.grid[
                BUFFER_HEIGHT as int - 1][c],
        forall|i: int|
            0 <= i < s.len() ==> #[trigger] write_seq_spec(v, s).grid[BUFFER_HEIGHT as int - 1][
                v.col + i] == (code_point_spec(s[i]), v.attr),
    decreases s.len(),
{
    if s.len() > 0 {
        let v1 = write_byte_spec(v, s[0]);
        let tail = s.subrange(1, s.len() as int);
        lemma_write_byte_in_row(v, s[0]);
        lemma_write_byte_spec_wf(v, s[0]);
        lemma_write_seq_in_row(v1, tail);
        let w = write_seq_spec(v, s);
        assert(w == write_seq_spec(v1, tail));
        assert forall|i: int| 0 <= i < s.len() implies #[trigger] w.grid[BUFFER_HEIGHT as int - 1][
            v.col + i] == (code_point_spec(s[i]), v.attr) by {
            if i == 0 {
                assert(w.grid[BUFFER_HEIGHT as int - 1][v.col] == v1.grid[BUFFER_HEIGHT as int
                    - 1][v.col]);
            } else {
                assert(tail[i - 1] == s[i]);
                assert(w.grid[BUFFER_HEIGHT as int - 1][v1.col + (i - 1)] == (
                    code_point_spec(tail[i - 1]),
                    v1.attr,
                ));
            }
        }
    }
}

/// Writing a string of fewer than `BUFFER_WIDTH` non-newline bytes from the
/// start of a line leaves the cursor at the string's length and every row
/// above the bottom one untouched.
pub proof fn lemma_short_write(v: WriterView, s: Seq<u8>)
    requires
        view_wf(v),
        v.col == 0,
        s.len() < BUFFER_WIDTH,
        forall|i: int| 0 <= i < s.len() ==> s[i] != 0x0a,
    ensures
        write_seq_spec(v, s).col == s.len(),
        forall|r: int|
            0 <= r < BUFFER_HEIGHT - 1 ==> #[trigger] write_seq_spec(v, s).grid[r] == v.grid[r],
{
    lemma_write_seq_in_row(v, s);
}

/// Writing exactly `BUFFER_WIDTH` non-newline bytes from the start of a line
/// fills the bottom row without scrolling; the next non-newline byte then
/// triggers exactly one scroll: the filled row moves up to row
/// `BUFFER_HEIGHT - 2`, and the new byte lands at column 0 of the now blank
/// bottom row.
pub proof fn lemma_wrap_scrolls_once(v: WriterView, s: Seq<u8>, b: u8)
    requires
        view_wf(v),
        v.col == 0,
        s.len() == BUFFER_WIDTH,
        forall|i: int| 0 <= i < s.len() ==> s[i] != 0x0a,
        b != 0x0a,
    ensures
        ({
            let v1 = write_seq_spec(v, s);
            let v2 = write_byte_spec(v1, b);
            &&& v1.col == BUFFER_WIDTH
            &&& forall|r: int| 0 <= r < BUFFER_HEIGHT - 1 ==> #[trigger] v1.grid[r] == v.grid[r]
            &&& v2.grid[BUFFER_HEIGHT as int - 2] == v1.grid[BUFFER_HEIGHT as int - 1]
            &&& forall|i: int|
                0 <= i < BUFFER_WIDTH ==> #[trigger] v2.grid[BUFFER_HEIGHT as int - 2][i] == (
                    code_point_spec(s[i]),
                    v.attr,
                )
            &&& v2.grid[BUFFER_HEIGHT as int - 1] == blank_row(v.attr).update(
                0,
                (code_point_spec(b), v.attr),
            )
            &&& v2.col == 1
            &&& forall|r: int| 0 <= r < BUFFER_HEIGHT - 2 ==> #[trigger] v2.grid[r] == v.grid[r + 1]
        }),
{
    lemma_write_seq_in_row(v, s);
    lemma_write_seq_spec_wf(v, s);
    let v1 = write_seq_spec(v, s);
    let v2 = write_byte_spec(v1, b);
    let g = scrolled(v1.grid, v1.attr);
    assert(g[BUFFER_HEIGHT as int - 1] == blank_row(v.attr));
    assert(v2.grid[BUFFER_HEIGHT as int - 2] == g[BUFFER_HEIGHT as int - 2]);
    assert(g[BUFFER_HEIGHT as int - 2] == v1.grid[BUFFER_HEIGHT as int - 1]);
    assert forall|i: int| 0 <= i < BUFFER_WIDTH implies #[trigger] v2.grid[BUFFER_HEIGHT as int
        - 2][i] == (code_point_spec(s[i]), v.attr) by {
        assert(v1.grid[BUFFER_HEIGHT as int - 1][0 + i] == (code_point_spec(s[i]), v.attr));
    }
}

/// A newline always resets the cursor to column 0 and always performs the
/// full scroll, even when the cursor already stands at column 0: an empty
/// line still consumes one scroll step.
pub proof fn lemma_newline_always_scrolls(v: WriterView)
    requires
        view_wf(v),
    ensures
        write_byte_spec(v, 0x0a).col == 0,
        write_byte_spec(v, 0x0a).attr == v.attr,
        write_byte_spec(v, 0x0a).grid == scrolled(v.grid, v.attr),
{
}

/// Writing a sequence that fits on one line and then two newlines leaves the
/// bottom two rows blank; row `BUFFER_HEIGHT - 3` then holds what the write
/// left on the bottom row: the rendered bytes, and beyond them the row's
/// prior content.
pub proof fn lemma_two_newlines(v: WriterView, s: Seq<u8>)
    requires
        view_wf(v),
        v.col == 0,
        s.len() <= BUFFER_WIDTH,
        forall|i: int| 0 <= i < s.len() ==> s[i] != 0x0a,
    ensures
        ({
            let w = write_byte_spec(write_byte_spec(write_seq_spec(v, s), 0x0a), 0x0a);
            &&& w.col == 0
            &&& w.attr == v.attr
            &&& w.grid[BUFFER_HEIGHT as int - 1] == blank_row(v.attr)
            &&& w.grid[BUFFER_HEIGHT as int - 2] == blank_row(v.attr)
            &&& forall|i: int|
                0 <= i < s.len() ==> #[trigger] w.grid[BUFFER_HEIGHT as int - 3][i] == (
                    code_point_spec(s[i]),
                    v.attr,
                )
            &&& forall|c: int|
                s.len() <= c < BUFFER_WIDTH ==> #[trigger] w.grid[BUFFER_HEIGHT as int - 3][c]
                    == v.grid[BUFFER_HEIGHT as int - 1][c]
        }),
{
    lemma_write_seq_in_row(v, s);
    lemma_write_seq_spec_wf(v, s);
    let v1 = write_seq_spec(v, s);
    let v2 = write_byte_spec(v1, 0x0a);
    let v3 = write_byte_spec(v2, 0x0a);
    assert(v2.grid[BUFFER_HEIGHT as int - 2] == v1.grid[BUFFER_HEIGHT as int - 1]);
    assert(v2.grid[BUFFER_HEIGHT as int - 1] == blank_row(v.attr));
    assert(v3.grid[BUFFER_HEIGHT as int - 3] == v2.grid[BUFFER_HEIGHT as int - 2]);
    assert(v3.grid[BUFFER_HEIGHT as int - 2] == v2.grid[BUFFER_HEIGHT as int - 1]);
    assert(v3.grid[BUFFER_HEIGHT as int - 1] == blank_row(v.attr));
    assert forall|i: int| 0 <= i < s.len() implies #[trigger] v3.grid[BUFFER_HEIGHT as int - 3][i]
        == (code_point_spec(s[i]), v.attr) by {
        assert(v1.grid[BUFFER_HEIGHT as int - 1][0 + i] == (code_point_spec(s[i]), v.attr));
    }
}

} // verus!
