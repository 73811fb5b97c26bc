//! Spine renderer support: its material keys, vertex layout markers and
//! shader kinds.

pub mod material;
pub mod mesh;
pub mod scene_renderer;
pub mod shaders;
