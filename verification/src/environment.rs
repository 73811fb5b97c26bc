//! Environment lighting and fog modes.

use vstd::prelude::*;

verus! {

/// Ambient lighting mode.
#[derive(Debug, Clone, Copy, PartialEq, Eq, Structural)]
pub enum EAmbientMode {
    NoneMode,
    HimesSphere,
    Sphere,
}

/// Fog falloff mode.
#[derive(Debug, Clone, Copy, PartialEq, Eq, Structural)]
pub enum EFogMode {
    NoneMode,
    Linear,
    Exp2,
}

} // verus!
