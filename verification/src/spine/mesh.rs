//! Spine mesh vertex layout.

use vstd::prelude::*;

verus! {

use crate::geometry::TVertexDataKindKey;
use crate::data_container::EVertexDataFormat;

/// The data kinds a spine mesh stores.
#[derive(Debug, Clone, Copy, PartialEq, Eq, PartialOrd, Ord, Hash, Structural)]
pub enum EMeshKind {
    Vertices,
    Indices,
}

impl TVertexDataKindKey for EMeshKind {

}

/// One named vertex attribute of the spine mesh layout.
#[derive(Debug, Clone)]
pub struct VertexAttribute {
    pub name: String,
    pub ty: EVertexDataFormat,
    pub num_elements: u32,
}

} // verus!
