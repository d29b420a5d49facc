//! Color representation and manipulation for terminal and colorimetric work.
//!
//! The hub of the crate is the 8-bit-per-channel RGB color type, with
//! parsing from hex codes and X11 color names, hex-code rendering,
//! terminal escape-code rendering, and midpoint mixing.

pub mod color;
pub mod names;
pub mod term;

