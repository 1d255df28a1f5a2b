//! Error taxonomy for the compiler and the VGM reader.

use vstd::prelude::*;

verus! {

/// All failure modes are fatal to compilation: a parse fault, an unknown
/// chip name, a channel letter outside `A`-`Z`/`a`-`z` or used before its
/// declaration, or a malformed VGM image on the reader path.
#[derive(Debug, Clone)]
pub enum Error {
    /// Malformed input at a known source line.
    Parse { line: usize, message: String },
    /// Malformed VGM image (bad magic, truncation).
    VgmParse(String),
    /// `#EX-<name>` named a chip that is not in the driver registry.
    UnknownChip(String),
    /// A channel letter was used before an `#EX-` directive declared it.
    UndeclaredChannel(char),
    /// A character outside `A`-`Z`/`a`-`z` was used as a channel id.
    InvalidChannel(char),
    /// Malformed envelope definition past recovery.
    Envelope(String),
    /// Malformed sample data.
    Sample(String),
}

} // verus!
