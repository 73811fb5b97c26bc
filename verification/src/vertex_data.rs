//! Vertex data kinds and buffer references.

use vstd::prelude::*;

verus! {

use crate::data_container::{TVertexBufferKindKey, TGeometryBufferID};

/// The semantic kinds of vertex data a mesh can carry.
#[derive(Debug, Clone, Copy, PartialEq, Eq, Structural)]
pub enum EVertexDataKind {
    Position,
    Position2D,
    ColorKind,
    UV,
    Normal,
    Tangent,
    MatricesIndicesKind,
    MatricesWeightsKind,
    MatricesIndicesExtraKind,
    MatricesWeightsExtraKind,
    UV2,
    UV3,
    UV4,
    UV5,
    UV6,
    UV7,
    UV8,
    UV9,
    UV10,
    UV11,
    UV12,
    UV13,
    UV14,
    UV15,
    UV16,
}

/// A vertex attribute: which buffer kind feeds which shader location.
#[derive(Debug, Clone, Copy, PartialEq, Eq, PartialOrd, Ord, Hash)]
pub struct VertexAttributeDesc<VDK: TVertexBufferKindKey> {
    pub kind: VDK,
    pub location: usize,
}

/// A slice of a pooled buffer holding 8-bit elements.
#[derive(Debug, Clone, Copy)]
pub struct VertexBufferU8<GBID: TGeometryBufferID> {
    pub data: GBID,
    pub offset: u32,
    pub size: u32,
}

/// A slice of a pooled buffer holding 16-bit elements.
#[derive(Debug, Clone, Copy)]
pub struct VertexBufferU16<GBID: TGeometryBufferID> {
    pub data: GBID,
    pub offset: u32,
    pub size: u32,
}

/// A slice of a pooled buffer holding 32-bit integer elements.
#[derive(Debug, Clone, Copy)]
pub struct VertexBufferU32<GBID: TGeometryBufferID> {
    pub data: GBID,
    pub offset: u32,
    pub size: u32,
}

/// A slice of a pooled buffer holding single-precision elements.
#[derive(Debug, Clone, Copy)]
pub struct VertexBufferF32<GBID: TGeometryBufferID> {
    pub data: GBID,
    pub offset: u32,
    pub size: u32,
}

/// A slice of a pooled buffer holding double-precision elements.
#[derive(Debug, Clone, Copy)]
pub struct VertexBufferF64<GBID: TGeometryBufferID> {
    pub data: GBID,
    pub offset: u32,
    pub size: u32,
}

} // verus!
