//! Light falloff modes.

use vstd::prelude::*;

verus! {

/// How light intensity falls off with distance.
#[derive(Debug, Clone, Copy, PartialEq, Eq, Structural)]
pub enum ELightFalloffMode {
    NoneMode,
    Phong,
    Physic,
    GLTF,
}

} // verus!
