//! Base material vocabulary: block keys, uniform formats and attribute
//! bindings over vertex data kinds.

use vstd::prelude::*;

verus! {

use crate::geometry::{TVertexDataKindKey, GeometryDataDesc};

/// Identifiers of material binding blocks (the base layer's own bound).
pub trait TMaterialBlockKindKey: Clone + Copy + PartialEq + Eq + PartialOrd + Ord
    + core::hash::Hash {

}

impl TMaterialBlockKindKey for u8 {

}

impl TMaterialBlockKindKey for u16 {

}

impl TMaterialBlockKindKey for u32 {

}

impl TMaterialBlockKindKey for u64 {

}

impl TMaterialBlockKindKey for usize {

}

/// The data formats a material uniform can carry.
#[derive(Debug, Clone, Copy, PartialEq, Eq, Structural)]
pub enum EUniformDataFormat {
    Float,
    Float2,
    Float4,
    Mat2,
    Mat4,
    Texture2D,
}

/// Binds one vertex data stream to one material block.
#[derive(Debug, Clone, Copy, PartialEq, Eq, PartialOrd, Ord, Hash)]
pub struct MaterialAttributeDesc<K: TVertexDataKindKey, K0: TMaterialBlockKindKey> {
    pub vertex: GeometryDataDesc<K>,
    pub bind: K0,
}

/// Marks a material as lit.
#[derive(Debug, Clone, Copy)]
pub struct LightingEnable;

/// Marks a mesh as a shadow caster.
#[derive(Debug, Clone, Copy)]
pub struct CastShadow;

/// Marks a mesh as a shadow receiver.
#[derive(Debug, Clone, Copy)]
pub struct ReceiveShadow;

} // verus!
