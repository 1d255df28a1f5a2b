//! MML-to-VGM compiler library.
//!
//! Compiles a Music Macro Language score into a version-1.61 VGM
//! register log: a fixed header with per-chip clock fields, an optimally
//! encoded command/delay stream, and a GD3 metadata block.

pub mod chips;
pub mod compiler;
pub mod error;
pub mod text;
pub mod vgm;

pub use compiler::Compiler;
pub use error::Error;
