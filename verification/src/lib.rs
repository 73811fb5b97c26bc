//! Scene support library centered on visibility culling: bounding volumes
//! (box, sphere, composite), frustum tests, keyed registries with slot
//! recycling, and a frustum-polyhedron builder for spatial queries.
//!
//! All geometry is carried out in exact integer arithmetic: planes keep
//! their squared normal length instead of dividing by an irrational norm,
//! spheres keep squared radii, and every comparison a culling decision
//! rests on is an exact comparison of integers. Inputs are bounded by
//! named limits so that every intermediate product provably fits in
//! 128-bit arithmetic, and the spatial index's hull-axis projections,
//! which exceed it, run in exact 256-bit arithmetic.

pub mod billboard;
pub mod cameras;
pub mod coordiante_system;
pub mod culling;
pub mod data_container;
pub mod environment;
pub mod flags;
pub mod frustum;
pub mod geometry;
pub mod lights;
pub mod material;
pub mod material_base;
pub mod pipeline_key;
pub mod skeleton;
pub mod spine;
pub mod uniform_info;
pub mod texture;
pub mod vertex_data;
pub mod matrix;
pub mod plane;
pub mod vector;
pub mod wide;

use vstd::prelude::*;

verus! {

/// Largest magnitude allowed for box coordinates and world-matrix entries
/// on the plane-based culling path. Keeps every product a frustum test
/// forms within `i128` range.
pub const MAX_ABS: i64 = 262144;

/// Magnitude budget (2^60) under which a 3-term product sum provably
/// fits in `i128`.
pub const DOT_LIMIT: i64 = 1152921504606846976;

/// Largest magnitude allowed for matrix entries fed to the
/// frustum-polyhedron builder and for box/world inputs of entries stored
/// in the spatial index. The polyhedron keeps exact rational corners with
/// a 4x4-determinant denominator, which needs a tighter budget.
pub const HULL_MAX_ABS: i64 = 128;

} // verus!
