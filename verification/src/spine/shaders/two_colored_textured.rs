//! Vertex-buffer slots and binding groups of the two-color textured
//! spine shader.

use vstd::prelude::*;

verus! {

/// The position stream's vertex-buffer slot.
#[derive(Debug, Clone, Copy)]
pub struct APositionVertexBuffer;

impl APositionVertexBuffer {
    pub fn id() -> (r: u32)
        ensures
            r == 0,
    {
        0
    }
}

/// The first color stream's vertex-buffer slot.
#[derive(Debug, Clone, Copy)]
pub struct AColorVertexBuffer;

impl AColorVertexBuffer {
    pub fn id() -> (r: u32)
        ensures
            r == 1,
    {
        1
    }
}

/// The second color stream's vertex-buffer slot.
#[derive(Debug, Clone, Copy)]
pub struct AColor2VertexBuffer;

impl AColor2VertexBuffer {
    pub fn id() -> (r: u32)
        ensures
            r == 2,
    {
        2
    }
}

/// The texture coordinate stream's vertex-buffer slot.
#[derive(Debug, Clone, Copy)]
pub struct ATexCoordVertexBuffer;

impl ATexCoordVertexBuffer {
    pub fn id() -> (r: u32)
        ensures
            r == 3,
    {
        3
    }
}

/// The shader's parameter binding group.
#[derive(Debug, Clone, Copy)]
pub struct ParamGroup;

/// The shader's parameter binding slot.
#[derive(Debug, Clone, Copy)]
pub struct ParamBind;

/// The sampler-and-texture binding group.
#[derive(Debug, Clone, Copy)]
pub struct SamplerUTextureUTextureGroup;

/// The two-color textured spine shader.
#[derive(Debug, Clone, Copy)]
pub struct TwoColoredTexturedShader;

} // verus!
