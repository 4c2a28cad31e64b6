use vga_console::color::{Color, ColorCode};
use vga_console::writer::code_point_for;

const ALL_COLORS: [Color; 16] = [
    Color::Black,
    Color::Blue,
    Color::Green,
    Color::Cyan,
    Color::Red,
    Color::Magenta,
    Color::Brown,
    Color::LightGray,
    Color::DarkGray,
    Color::LightBlue,
    Color::LightGreen,
    Color::LightCyan,
    Color::LightRed,
    Color::Pink,
    Color::Yellow,
    Color::White,
];

#[test]
fn color_values_are_the_device_codes() {
    for (i, c) in ALL_COLORS.iter().enumerate() {
        assert_eq!(c.value(), i as u8);
    }
}

#[test]
fn code_point_is_identity_on_printable_ascii_and_newline() {
    for b in 0x20u8..=0x7e {
        assert_eq!(code_point_for(b), b);
    }
    assert_eq!(code_point_for(b'\n'), b'\n');
}

#[test]
fn code_point_substitutes_sentinel_outside_range() {
    for b in 0x00u8..0x20 {
        if b != b'\n' {
            assert_eq!(code_point_for(b), 0xfe);
        }
    }
    for b in 0x7fu8..=0xff {
        assert_eq!(code_point_for(b), 0xfe);
    }
}

#[test]
fn attribute_packs_background_high_foreground_low() {
    for (fi, &fg) in ALL_COLORS.iter().enumerate() {
        for (bi, &bg) in ALL_COLORS.iter().enumerate() {
            assert_eq!(ColorCode::new(fg, bg).0, ((bi as u8) << 4) | (fi as u8));
        }
    }
}

#[test]
fn attribute_examples() {
    assert_eq!(ColorCode::new(Color::Yellow, Color::Black).0, 0x0e);
    assert_eq!(ColorCode::new(Color::White, Color::Blue).0, 0x1f);
    assert_eq!(ColorCode::new(Color::Black, Color::White).0, 0xf0);
}
