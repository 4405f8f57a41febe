//! The run configuration handed in from the command line: two boolean flags
//! and the path of the ROM image to open. Argument parsing itself lives
//! outside the core; the core only consumes the parsed values.

use vstd::prelude::*;

verus! {

#[derive(Debug)]
pub struct Options {
    /// If set, certain instructions that are otherwise invalid can be used
    /// for special functions.
    pub meta: bool,

    /// If set, the boot ROM is not skipped on startup.
    pub boot: bool,

    /// Path to the ROM file to open.
    pub rom_path: String,
}

} // verus!
