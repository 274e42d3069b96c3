//! The top-level mode the front end is in.

use vstd::prelude::*;

verus! {

/// The four modes of the front end: the normal menu, the settings editor,
/// the interactive terminal and the analyzer.
#[derive(Debug, Clone, Copy, PartialEq, Eq, Structural)]
pub enum Mode {
    Normal,
    Settings,
    Interactive,
    Analyzer,
}

impl Default for Mode {
    fn default() -> (r: Mode)
        ensures
            r == Mode::Normal,
    {
        Mode::Normal
    }
}

} // verus!
