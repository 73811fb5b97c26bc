//! Material uniform and texture descriptions, with the exact uniform
//! buffer size computation.

use vstd::prelude::*;

verus! {

use crate::data_container::{TVertexBufferKindKey, TMaterialBlockKindKey};
use crate::geometry::GeometryBufferDesc;

/// The data formats a material uniform can carry.
#[derive(Debug, Clone, Copy, PartialEq, Eq, PartialOrd, Ord, Hash, Structural)]
pub enum EUniformDataFormat {
    Float,
    Float2,
    Float4,
    Color4,
    Mat2,
    Mat4,
}

/// Bytes a uniform of this format occupies in the buffer.
pub open spec fn match_uniform_size_spec(f: EUniformDataFormat) -> int {
    match f {
        EUniformDataFormat::Float => 4,
        EUniformDataFormat::Float2 => 8,
        EUniformDataFormat::Float4 => 16,
        EUniformDataFormat::Color4 => 16,
        EUniformDataFormat::Mat2 => 16,
        EUniformDataFormat::Mat4 => 64,
    }
}

/// The fill granule the packing rule tracks for this format.
pub open spec fn fill_size_spec(f: EUniformDataFormat) -> int {
    match f {
        EUniformDataFormat::Float => 4,
        EUniformDataFormat::Float2 => 8,
        EUniformDataFormat::Float4 => 16,
        EUniformDataFormat::Color4 => 16,
        EUniformDataFormat::Mat2 => 16,
        EUniformDataFormat::Mat4 => 16,
    }
}

impl EUniformDataFormat {
    /// Bytes this format occupies (see `match_uniform_size_spec`).
    pub fn match_uniform_size(&self) -> (r: u64)
        ensures
            r == match_uniform_size_spec(*self),
    {
        match self {
            EUniformDataFormat::Float => 4,
            EUniformDataFormat::Float2 => 8,
            EUniformDataFormat::Float4 => 16,
            EUniformDataFormat::Color4 => 16,
            EUniformDataFormat::Mat2 => 16,
            EUniformDataFormat::Mat4 => 64,
        }
    }

    /// The fill granule of this format (see `fill_size_spec`).
    pub fn fill_size(&self) -> (r: u64)
        ensures
            r == fill_size_spec(*self),
    {
        match self {
            EUniformDataFormat::Float => 4,
            EUniformDataFormat::Float2 => 8,
            EUniformDataFormat::Float4 => 16,
            EUniformDataFormat::Color4 => 16,
            EUniformDataFormat::Mat2 => 16,
            EUniformDataFormat::Mat4 => 16,
        }
    }
}

/// Description of one material uniform.
#[derive(Debug, Clone, Copy, PartialEq, Eq, PartialOrd, Ord, Hash)]
pub struct MaterialUniformDesc<MBKK: TMaterialBlockKindKey> {
    pub kind: MBKK,
    pub bind: usize,
    pub format: EUniformDataFormat,
}

/// One step of the packing fold: `(result, last)` after consuming one
/// format. A fill granule equal to the running granule (or a fresh
/// run) restarts the run; a larger granule also restarts it; a smaller
/// one consumes part of the run. Every step adds the format's size.
pub open spec fn calc_step(acc: (int, int), f: EUniformDataFormat) -> (int, int) {
    let fill = fill_size_spec(f);
    let run = if acc.1 == 0 || acc.1 <= fill {
        (acc.0, fill)
    } else {
        (acc.0, acc.1 - fill)
    };
    (run.0 + match_uniform_size_spec(f), run.1)
}

/// The packing fold over the first `n` descriptions.
pub open spec fn calc_fold<MBKK: TMaterialBlockKindKey>(descs: Seq<MaterialUniformDesc<MBKK>>,
    n: int) -> (int, int)
    decreases n,
{
    if n <= 0 {
        (0, 0)
    } else {
        calc_step(calc_fold(descs, n - 1), descs[n - 1].format)
    }
}

/// The buffer size of a description list: the fold's byte count, plus
/// the trailing run if one is open.
pub open spec fn calc_buffer_size_spec<MBKK: TMaterialBlockKindKey>(
    descs: Seq<MaterialUniformDesc<MBKK>>) -> int {
    let acc = calc_fold(descs, descs.len() as int);
    if acc.1 > 0 {
        acc.0 + acc.1
    } else {
        acc.0
    }
}

/// The fold stays within linear bounds: at most 64 bytes per format
/// and a run of at most 16.
proof fn lemma_calc_fold_bounds<MBKK: TMaterialBlockKindKey>(
    descs: Seq<MaterialUniformDesc<MBKK>>, n: int)
    requires
        0 <= n <= descs.len(),
    ensures
        0 <= calc_fold(descs, n).0 <= 64 * n,
        0 <= calc_fold(descs, n).1 <= 16,
    decreases n,
{
    if n > 0 {
        lemma_calc_fold_bounds(descs, n - 1);
    }
}

impl<MBKK: TMaterialBlockKindKey> MaterialUniformDesc<MBKK> {
    /// The uniform buffer size the description list needs under the
    /// packing rule (see `calc_buffer_size_spec`).
    pub fn calc_buffer_size(descs: &Vec<MaterialUniformDesc<MBKK>>) -> (r: u64)
        requires
            descs@.len() <= 0x0200_0000_0000_0000,
        ensures
            r == calc_buffer_size_spec(descs@),
    {
        let len = descs.len();
        let mut result: u64 = 0;
        let mut last_size: u64 = 0;
        let mut i: usize = 0;
        proof {
            lemma_calc_fold_bounds(descs@, 0);
        }
        while i < len
            invariant
                0 <= i <= len,
                len == descs@.len(),
                len <= 0x0200_0000_0000_0000,
                result == calc_fold(descs@, i as int).0,
                last_size == calc_fold(descs@, i as int).1,
                result <= 64 * i,
                last_size <= 16,
            decreases len - i,
        {
            let fill_size = descs[i].format.fill_size();
            if last_size == 0 || last_size == fill_size {
                last_size = fill_size;
            } else if last_size < fill_size {
                last_size = fill_size;
                result += fill_size - last_size;
            } else {
                last_size -= fill_size;
            }
            result += descs[i].format.match_uniform_size();
            i += 1;
            proof {
                lemma_calc_fold_bounds(descs@, i as int);
            }
        }
        if last_size > 0 {
            result += last_size;
        }
        result
    }
}

/// Description of one material texture binding.
#[derive(Debug, Clone, Copy, PartialEq, Eq, PartialOrd, Ord, Hash)]
pub struct MaterialTextureDesc<MBKK: TMaterialBlockKindKey> {
    pub kind: MBKK,
    pub bind: u32,
    pub bind_sampler: u32,
}

/// Binds one vertex buffer to one material block.
#[derive(Debug, Clone, Copy, PartialEq, Eq, PartialOrd, Ord, Hash)]
pub struct MaterialAttributeDesc<VBK: TVertexBufferKindKey, MBKK: TMaterialBlockKindKey> {
    pub vertex: GeometryBufferDesc<VBK>,
    pub bind: MBKK,
}

/// Why uniform data cannot be stored.
#[derive(Debug, Clone, Copy, PartialEq, Eq, Structural)]
pub enum EMaterialError {
    /// The data's variant does not match the uniform's format.
    UniformDataNotMatch,
    /// The description is not one the material was initialized with.
    NotSupportUniformDesc,
}

/// Marks a material as lit.
#[derive(Debug, Clone, Copy)]
pub struct LightingEnable;

/// Marks a mesh as a shadow caster.
#[derive(Debug, Clone, Copy)]
pub struct CastShadow;

/// Marks a mesh as a shadow receiver.
#[derive(Debug, Clone, Copy)]
pub struct ReceiveShadow;

} // verus!
