//! Marker components and render-layer flags for scene nodes.

use vstd::prelude::*;

verus! {

/// Marks a node as static.
#[derive(Debug, Clone, Copy)]
pub struct FlagStatic;

/// Marks a node as instanced.
#[derive(Debug, Clone, Copy)]
pub struct FlagInstanced;

/// The render layers a node belongs to, one bit per layer.
#[derive(Debug, Clone, Copy, PartialEq, Eq, Structural)]
pub struct RenderLayerMask(pub u64);

#[derive(Debug, Clone, Copy)]
pub struct Camera0;

#[derive(Debug, Clone, Copy)]
pub struct Camera1;

#[derive(Debug, Clone, Copy)]
pub struct Camera2;

#[derive(Debug, Clone, Copy)]
pub struct Camera3;

#[derive(Debug, Clone, Copy)]
pub struct Camera4;

#[derive(Debug, Clone, Copy)]
pub struct Camera5;

#[derive(Debug, Clone, Copy)]
pub struct Camera6;

#[derive(Debug, Clone, Copy)]
pub struct Camera7;

#[derive(Debug, Clone, Copy)]
pub struct Scene0;

#[derive(Debug, Clone, Copy)]
pub struct Scene1;

#[derive(Debug, Clone, Copy)]
pub struct Scene2;

#[derive(Debug, Clone, Copy)]
pub struct Scene3;

#[derive(Debug, Clone, Copy)]
pub struct Scene4;

#[derive(Debug, Clone, Copy)]
pub struct Scene5;

#[derive(Debug, Clone, Copy)]
pub struct Scene6;

#[derive(Debug, Clone, Copy)]
pub struct Scene7;

} // verus!
