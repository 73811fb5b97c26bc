//! The spine scene renderer handle.

use vstd::prelude::*;

verus! {

/// Owner of the per-scene spine render state.
#[derive(Debug, Clone, Copy)]
pub struct SceneRenderer;

} // verus!
