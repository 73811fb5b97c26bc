//! Vertex-buffer slots and binding groups of the colored spine shader.

use vstd::prelude::*;

verus! {

/// The position stream's vertex-buffer slot.
#[derive(Debug, Clone, Copy)]
pub struct APositionVertexBuffer;

impl APositionVertexBuffer {
    pub fn id() -> (r: u32)
        ensures
            r == 0,
    {
        0
    }
}

/// The color stream's vertex-buffer slot.
#[derive(Debug, Clone, Copy)]
pub struct AColorVertexBuffer;

impl AColorVertexBuffer {
    pub fn id() -> (r: u32)
        ensures
            r == 1,
    {
        1
    }
}

/// The shader's parameter binding group.
#[derive(Debug, Clone, Copy)]
pub struct ParamGroup;

/// The shader's parameter binding slot.
#[derive(Debug, Clone, Copy)]
pub struct ParamBind;

/// The colored spine shader.
#[derive(Debug, Clone, Copy)]
pub struct ColoredShader;

} // verus!
