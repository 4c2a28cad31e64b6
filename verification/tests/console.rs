use vga_console::color::Color;
use vga_console::writer::Writer;

const H: usize = 25;
const W: usize = 80;
const BLANK: u8 = 0x20;
// Yellow on black: background 0 in the high bits, foreground 14 in the low.
const ATTR: u8 = 0x0e;

fn fresh() -> Writer {
    Writer::new(Color::Yellow, Color::Black)
}

fn assert_row_blank(w: &Writer, row: usize) {
    for col in 0..W {
        assert_eq!(w.cell_at(row, col), (BLANK, ATTR));
    }
}

fn assert_row_holds(w: &Writer, row: usize, s: &str) {
    let bytes = s.as_bytes();
    for (col, &b) in bytes.iter().enumerate() {
        assert_eq!(w.cell_at(row, col), (b, ATTR));
    }
    for col in bytes.len()..W {
        assert_eq!(w.cell_at(row, col), (BLANK, ATTR));
    }
}

#[test]
fn fresh_console_is_blank() {
    let w = fresh();
    assert_eq!(w.cursor_column(), 0);
    assert_eq!(w.attribute(), ATTR);
    for row in 0..H {
        assert_row_blank(&w, row);
    }
}

#[test]
fn short_write_moves_cursor_and_leaves_history_rows() {
    let mut w = fresh();
    w.write_string("abc");
    assert_eq!(w.cursor_column(), 3);
    for row in 0..H - 1 {
        assert_row_blank(&w, row);
    }
    assert_row_holds(&w, H - 1, "abc");
}

#[test]
fn hello_world_lands_on_bottom_row() {
    let mut w = fresh();
    w.write_string("Hello World!");
    assert_eq!(w.cursor_column(), 12);
    let expected = [
        b'H', b'e', b'l', b'l', b'o', b' ', b'W', b'o', b'r', b'l', b'd', b'!',
    ];
    for (col, &b) in expected.iter().enumerate() {
        assert_eq!(w.cell_at(H - 1, col), (b, ATTR));
    }
    for col in expected.len()..W {
        assert_eq!(w.cell_at(H - 1, col), (BLANK, ATTR));
    }
    for row in 0..H - 1 {
        assert_row_blank(&w, row);
    }
}

#[test]
fn newline_moves_hello_world_up_one_row() {
    let mut w = fresh();
    w.write_string("Hello World!");
    w.write_byte(b'\n');
    assert_eq!(w.cursor_column(), 0);
    assert_row_holds(&w, H - 2, "Hello World!");
    assert_row_blank(&w, H - 1);
    for row in 0..H - 2 {
        assert_row_blank(&w, row);
    }
}

#[test]
fn newline_scrolls_even_on_an_empty_line() {
    let mut w = fresh();
    w.write_string("x");
    w.write_byte(b'\n');
    assert_eq!(w.cursor_column(), 0);
    assert_row_holds(&w, H - 2, "x");
    // The cursor already stands at column 0; the newline still scrolls.
    w.write_byte(b'\n');
    assert_eq!(w.cursor_column(), 0);
    assert_row_holds(&w, H - 3, "x");
    assert_row_blank(&w, H - 2);
    assert_row_blank(&w, H - 1);
}

#[test]
fn full_row_wraps_on_the_next_byte_only() {
    let mut w = fresh();
    let full: String = "A".repeat(W);
    w.write_string(&full);
    // The row is exactly full: no scroll has happened yet.
    assert_eq!(w.cursor_column(), W);
    assert_row_blank(&w, H - 2);
    assert_row_holds(&w, H - 1, &full);
    // One more byte triggers exactly one scroll.
    w.write_byte(b'B');
    assert_eq!(w.cursor_column(), 1);
    assert_row_holds(&w, H - 2, &full);
    assert_row_holds(&w, H - 1, "B");
    for row in 0..H - 2 {
        assert_row_blank(&w, row);
    }
}

#[test]
fn two_newlines_leave_bottom_rows_blank() {
    let mut w = fresh();
    w.write_string("tail");
    w.write_byte(b'\n');
    w.write_byte(b'\n');
    assert_eq!(w.cursor_column(), 0);
    assert_row_blank(&w, H - 1);
    assert_row_blank(&w, H - 2);
    assert_row_holds(&w, H - 3, "tail");
}

#[test]
fn unprintable_byte_renders_the_sentinel_glyph() {
    let mut w = fresh();
    w.write_byte(0x01);
    w.write_byte(0x7f);
    assert_eq!(w.cell_at(H - 1, 0), (0xfe, ATTR));
    assert_eq!(w.cell_at(H - 1, 1), (0xfe, ATTR));
    assert_eq!(w.cursor_column(), 2);
}

#[test]
fn multi_byte_characters_become_one_sentinel_per_byte() {
    let mut w = fresh();
    // A two-byte encoded character: each raw byte is outside printable
    // ASCII, so each is substituted individually.
    w.write_string("é");
    assert_eq!("é".as_bytes().len(), 2);
    assert_eq!(w.cell_at(H - 1, 0), (0xfe, ATTR));
    assert_eq!(w.cell_at(H - 1, 1), (0xfe, ATTR));
    assert_eq!(w.cursor_column(), 2);
}

#[test]
fn every_byte_is_accepted() {
    let mut w = fresh();
    for b in 0x00u8..=0xff {
        w.write_byte(b);
        assert!(w.cursor_column() <= W);
    }
}

#[test]
fn long_output_keeps_the_last_rows_of_history() {
    let mut w = fresh();
    for i in 0..100u32 {
        w.write_string(&format!("line {}", i));
        w.write_byte(b'\n');
    }
    // The bottom row is the fresh active line; the rows above hold the most
    // recent lines, oldest at the top.
    assert_row_blank(&w, H - 1);
    assert_row_holds(&w, H - 2, "line 99");
    assert_row_holds(&w, H - 3, "line 98");
    assert_row_holds(&w, 0, &format!("line {}", 99 - (H - 2)));
}
