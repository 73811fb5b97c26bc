//! Camera field-of-view interpretation.

use vstd::prelude::*;

verus! {

/// Which direction the field-of-view angle fixes.
#[derive(Debug, Clone, Copy, PartialEq, Eq, Structural)]
pub enum EFovMode {
    VerticalFixed,
    HorizontalFixed,
}

} // verus!
