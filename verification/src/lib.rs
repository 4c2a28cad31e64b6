//! A text-mode console driver for a fixed-size memory-mapped character grid.
//!
//! The library packs foreground/background colors into attribute bytes,
//! translates raw input bytes into displayable code points, and maintains a
//! writer that renders bytes onto the bottom row of a fixed H x W cell grid
//! with line wrapping and terminal-style scrolling.

pub mod color;
pub mod grid;
pub mod laws;
pub mod writer;
