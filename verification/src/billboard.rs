//! Node alignment modes that shape the render matrix.

use vstd::prelude::*;

verus! {

/// Which axes a node aligns to the camera.
#[derive(Debug, Clone, Copy, PartialEq, Eq, Structural)]
pub enum EBillboardMod {
    NoneMode,
    X,
    Y,
    Z,
    All,
}

#[derive(Debug, Clone, Copy, PartialEq, Eq, Structural)]
pub struct Billboard {
    pub mode: EBillboardMod,
}

} // verus!
