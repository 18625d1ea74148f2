//! The command-line surface: one watched file and the backend selection flags.

use vstd::prelude::*;

verus! {

/// The parsed command line.
#[derive(Clone, Debug, PartialEq, Eq)]
pub struct Command {
    /// Path of the watched source file.
    pub filename: String,
    /// `-L`: compile with latex.
    pub is_plain: bool,
    /// `-p`: compile with pdflatex.
    pub is_pdf: bool,
    /// `-x`: compile with xelatex.
    pub is_xe: bool,
    /// `-l`: compile with lualatex.
    pub is_lua: bool,
    /// `-S`: the file is part of a multi-file document.
    pub has_sub: bool,
}

} // verus!
