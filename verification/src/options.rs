//! Command-line options of the emulator binary.

use vstd::prelude::*;

verus! {

/// What the binary accepts on its command line.
#[derive(Clone, Debug, PartialEq, Eq)]
pub struct Options {
    /// ROM file to emulate; may be a raw dump from a cartridge or a compiled
    /// ELF file.
    pub rom: String,
}

} // verus!
