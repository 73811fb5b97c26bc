//! Texture sampling parameters.

use vstd::prelude::*;

verus! {

/// Valid anisotropy clamp levels of a sampler.
#[derive(Debug, Clone, Copy, PartialEq, Eq, Structural)]
pub enum EAnisotropyClamp {
    One,
    Two,
    Four,
    Eight,
    Sixteen,
}

} // verus!
