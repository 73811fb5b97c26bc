//! Skinning calculation strategies.

use vstd::prelude::*;

verus! {

/// Skinning evaluated on the CPU.
#[derive(Debug, Clone, Copy)]
pub struct SkeletonCalcCPU;

/// Skinning read from baked per-frame data.
#[derive(Debug, Clone, Copy)]
pub struct SkeletonCalcFrameBaked;

} // verus!
