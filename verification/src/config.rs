//! The configuration record that one compile runs under.
//!
//! The host derives it from the command line and hands it to the engine by
//! read-only reference; the engine never changes it.

use vstd::prelude::*;

verus! {

/// Settings for one compile: the output file's base name, the target
/// dialect, and the flags the engine itself does not interpret.
#[derive(Clone)]
pub struct Config {
    /// Name of the source file (with extension), kept for diagnostics.
    pub file_name: String,
    /// Base name of the output artifact, without extension. An empty stem
    /// is a fatal configuration error: no artifact may be produced from it.
    pub file_stem: String,
    /// `true` selects the open (GLSL-style) dialect of standalone stage
    /// programs; `false` selects the closed (HLSL-style) wrapped program.
    pub is_open_gl: bool,
    /// Enables extra diagnostic output in the host; never changes the
    /// artifact's content.
    pub is_loud: bool,
    /// Unrecognized flags, preserved for forward compatibility and ignored
    /// by the engine.
    pub other_flags: Vec<String>,
}

impl Config {
    /// The all-defaults record: empty names, closed dialect, quiet, no
    /// extra flags.
    pub fn empty() -> (r: Config)
        ensures
            r.file_name@ == Seq::<char>::empty(),
            r.file_stem@ == Seq::<char>::empty(),
            !r.is_open_gl,
            !r.is_loud,
            r.other_flags@ == Seq::<String>::empty(),
    {
        Config {
            file_name: String::new(),
            file_stem: String::new(),
            is_open_gl: false,
            is_loud: false,
            other_flags: Vec::new(),
        }
    }
}

} // verus!
