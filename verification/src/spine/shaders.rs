//! The spine shader kinds and their vertex-buffer slot layouts.

pub mod colored;
pub mod two_colored_textured;

use vstd::prelude::*;

verus! {

/// Which spine shader a draw uses.
#[derive(Debug, Clone, Copy, PartialEq, Eq, Structural)]
pub enum EShader {
    Colored,
    ColoredTextured,
    TwoColoredTextured,
}

} // verus!
