//! Verified core of a three-part computer graphics course program: the choice
//! of the active lab, the colour palettes, the repeating colour timer and the
//! per-frame decisions of each lab. Rendering, windows and floating-point
//! geometry live in the application crate around this library.

pub mod input;
pub mod lab;
pub mod lab1;
pub mod lab2;
pub mod lab3;
pub mod text;
pub mod timer;
