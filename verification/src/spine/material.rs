//! Keys and marker types of the spine materials.

use vstd::prelude::*;

verus! {

use crate::geometry::TVertexDataKindKey;
use crate::material_base::TMaterialBlockKindKey;

/// The one vertex stream a spine mesh feeds its material.
#[derive(Debug, Clone, Copy, PartialEq, Eq, PartialOrd, Ord, Hash, Structural)]
pub enum SpineVertexDataKindKey {
    Vertices,
}

impl TVertexDataKindKey for SpineVertexDataKindKey {

}

/// The binding blocks of the spine materials.
#[derive(Debug, Clone, Copy, PartialEq, Eq, PartialOrd, Ord, Hash, Structural)]
pub enum SpineMaterialBlockKindKey {
    Vertices,
    UniformSet0,
    MVPMatrix,
    MaskFlag,
    Texture,
}

impl TMaterialBlockKindKey for SpineMaterialBlockKindKey {

}

/// The untextured colored spine material.
#[derive(Debug, Clone, Copy)]
pub struct SpineMaterialColored;

/// The single-texture colored spine material.
#[derive(Debug, Clone, Copy)]
pub struct SpineMaterialColoredTextured;

/// The two-color textured spine material.
#[derive(Debug, Clone, Copy)]
pub struct SpineMaterialColoredTexturedTwo;

} // verus!
