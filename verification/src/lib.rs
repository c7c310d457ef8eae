//! Turns the text of a novel into the parts of an academic-looking paper and
//! renders them as a LaTeX document.
use vstd::prelude::*;

pub mod cli;
pub mod config;
pub mod extractor;
pub mod numfmt;
pub mod renderer;
pub mod sections;
pub mod templates;
pub mod text;
pub mod transformer;
pub mod tui;
pub mod wording;

verus! {

/// Appending one character to a `String` adds it at the end.
pub assume_specification[ String::push ](s: &mut String, ch: char)
    ensures
        final(s)@ == old(s)@.push(ch),
;

} // verus!
