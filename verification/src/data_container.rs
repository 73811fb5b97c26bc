//! Key traits and container interfaces shared by the geometry and
//! material layers.

use vstd::prelude::*;

verus! {

/// Keys of generic containers.
pub trait FKey: Clone + Copy + PartialEq + Eq + PartialOrd + Ord + core::hash::Hash {

}

impl FKey for u8 {

}

impl FKey for u16 {

}

impl FKey for u32 {

}

impl FKey for u64 {

}

impl FKey for u128 {

}

impl FKey for usize {

}

impl FKey for i8 {

}

impl FKey for i16 {

}

impl FKey for i32 {

}

impl FKey for i64 {

}

impl FKey for i128 {

}

impl FKey for isize {

}

/// A keyed container an embedder supplies; the library only relies on
/// the declared signatures.
pub trait FContainer<T: Clone, K: FKey> {
    fn insert(&mut self, value: T) -> K;

    fn remove(&mut self, key: &K) -> Option<T>;

    fn get(&mut self, key: &K) -> Option<&T>;

    fn get_mut(&mut self, key: &K) -> Option<&mut T>;
}

/// Identifiers of textures in an embedder-supplied pool.
pub trait TextureID: Clone + Copy + PartialEq + Eq + PartialOrd + Ord + core::hash::Hash {

}

impl TextureID for u8 {

}

impl TextureID for u16 {

}

impl TextureID for u32 {

}

impl TextureID for u64 {

}

impl TextureID for u128 {

}

impl TextureID for usize {

}

impl TextureID for i8 {

}

impl TextureID for i16 {

}

impl TextureID for i32 {

}

impl TextureID for i64 {

}

impl TextureID for i128 {

}

impl TextureID for isize {

}

/// Identifiers of materials.
pub trait TMaterialKey: Clone + Copy + PartialEq + Eq + PartialOrd + Ord + core::hash::Hash {

}

impl TMaterialKey for u8 {

}

impl TMaterialKey for u16 {

}

impl TMaterialKey for u32 {

}

impl TMaterialKey for u64 {

}

impl TMaterialKey for u128 {

}

impl TMaterialKey for usize {

}

impl TMaterialKey for i8 {

}

impl TMaterialKey for i16 {

}

impl TMaterialKey for i32 {

}

impl TMaterialKey for i64 {

}

impl TMaterialKey for i128 {

}

impl TMaterialKey for isize {

}

/// Identifiers of material binding blocks.
pub trait TMaterialBlockKindKey: Clone + Copy + PartialEq + Eq + PartialOrd + Ord
    + core::hash::Hash {

}

impl TMaterialBlockKindKey for u8 {

}

impl TMaterialBlockKindKey for u16 {

}

impl TMaterialBlockKindKey for u32 {

}

impl TMaterialBlockKindKey for u64 {

}

impl TMaterialBlockKindKey for u128 {

}

impl TMaterialBlockKindKey for usize {

}

impl TMaterialBlockKindKey for i8 {

}

impl TMaterialBlockKindKey for i16 {

}

impl TMaterialBlockKindKey for i32 {

}

impl TMaterialBlockKindKey for i64 {

}

impl TMaterialBlockKindKey for i128 {

}

impl TMaterialBlockKindKey for isize {

}

/// Identifiers of vertex data kinds.
pub trait TVertexDataKindKey: Clone + Copy + PartialEq + Eq + PartialOrd + Ord
    + core::hash::Hash {

}

impl TVertexDataKindKey for u8 {

}

impl TVertexDataKindKey for u16 {

}

impl TVertexDataKindKey for u32 {

}

impl TVertexDataKindKey for u64 {

}

impl TVertexDataKindKey for u128 {

}

impl TVertexDataKindKey for usize {

}

impl TVertexDataKindKey for i8 {

}

impl TVertexDataKindKey for i16 {

}

impl TVertexDataKindKey for i32 {

}

impl TVertexDataKindKey for i64 {

}

impl TVertexDataKindKey for i128 {

}

impl TVertexDataKindKey for isize {

}

/// Identifiers of vertex buffer kinds. The geometry container compares
/// these, so the trait asks for an equality test whose result is the
/// value equality of the keys.
pub trait TVertexBufferKindKey: Clone + Copy + PartialEq + Eq + PartialOrd + Ord
    + core::hash::Hash {
    /// Value equality of two keys.
    fn same(&self, other: &Self) -> (r: bool)
        ensures
            r == (*self == *other),
    ;
}

impl TVertexBufferKindKey for u8 {
    fn same(&self, other: &Self) -> (r: bool) {
        *self == *other
    }
}

impl TVertexBufferKindKey for u16 {
    fn same(&self, other: &Self) -> (r: bool) {
        *self == *other
    }
}

impl TVertexBufferKindKey for u32 {
    fn same(&self, other: &Self) -> (r: bool) {
        *self == *other
    }
}

impl TVertexBufferKindKey for u64 {
    fn same(&self, other: &Self) -> (r: bool) {
        *self == *other
    }
}

impl TVertexBufferKindKey for u128 {
    fn same(&self, other: &Self) -> (r: bool) {
        *self == *other
    }
}

impl TVertexBufferKindKey for usize {
    fn same(&self, other: &Self) -> (r: bool) {
        *self == *other
    }
}

impl TVertexBufferKindKey for i8 {
    fn same(&self, other: &Self) -> (r: bool) {
        *self == *other
    }
}

impl TVertexBufferKindKey for i16 {
    fn same(&self, other: &Self) -> (r: bool) {
        *self == *other
    }
}

impl TVertexBufferKindKey for i32 {
    fn same(&self, other: &Self) -> (r: bool) {
        *self == *other
    }
}

impl TVertexBufferKindKey for i64 {
    fn same(&self, other: &Self) -> (r: bool) {
        *self == *other
    }
}

impl TVertexBufferKindKey for i128 {
    fn same(&self, other: &Self) -> (r: bool) {
        *self == *other
    }
}

impl TVertexBufferKindKey for isize {
    fn same(&self, other: &Self) -> (r: bool) {
        *self == *other
    }
}

/// Identifiers of geometry buffers.
pub trait TGeometryBufferID: Clone + Copy + PartialEq + Eq + PartialOrd + Ord
    + core::hash::Hash {

}

impl TGeometryBufferID for u8 {

}

impl TGeometryBufferID for u16 {

}

impl TGeometryBufferID for u32 {

}

impl TGeometryBufferID for u64 {

}

impl TGeometryBufferID for u128 {

}

impl TGeometryBufferID for usize {

}

impl TGeometryBufferID for i8 {

}

impl TGeometryBufferID for i16 {

}

impl TGeometryBufferID for i32 {

}

impl TGeometryBufferID for i64 {

}

impl TGeometryBufferID for i128 {

}

impl TGeometryBufferID for isize {

}

/// Element formats a vertex buffer can hold.
#[derive(Debug, Clone, Copy, PartialEq, Eq, PartialOrd, Ord, Hash, Structural)]
pub enum EVertexDataFormat {
    U8,
    U16,
    U32,
    F32,
    F64,
}

/// The buffer pool an embedder supplies. Each implementation fixes its
/// own size bookkeeping through `size_of`, and `get_size` must report
/// exactly that.
pub trait GeometryBufferPool<GBID: TGeometryBufferID> {
    /// The size the pool records for a buffer.
    spec fn size_of(&self, key: GBID) -> usize;

    /// Report the recorded size of the buffer under `key`.
    fn get_size(&self, key: &GBID) -> (r: usize)
        ensures
            r == self.size_of(*key),
    ;
}

/// How many data elements land inside the existing pool when writing
/// from `offset`.
pub open spec fn update_cut(pool_len: int, data_len: int, offset: int) -> int {
    if offset < pool_len {
        if data_len <= pool_len - offset {
            data_len
        } else {
            pool_len - offset
        }
    } else {
        0
    }
}

/// What `update` leaves in the pool: the data overwrites the pool from
/// `offset` as far as the old contents reach, and whatever remains of
/// the data is appended at the end.
pub open spec fn update_spec<T>(pool: Seq<T>, data: Seq<T>, offset: int) -> Seq<T> {
    let k = update_cut(pool.len() as int, data.len() as int, offset);
    Seq::new(pool.len(), |i: int| if offset <= i < offset + k {
        data[i - offset]
    } else {
        pool[i]
    }) + data.subrange(k, data.len() as int)
}

/// Overwrite `pool` from `offset` with `data`, appending what does not
/// fit, and return the new length (see `update_spec`).
pub fn update<T: Copy>(pool: &mut Vec<T>, data: &[T], offset: usize) -> (r: usize)
    ensures
        final(pool)@ == update_spec(old(pool)@, data@, offset as int),
        r == final(pool)@.len(),
{
    let ghost k = update_cut(old(pool)@.len() as int, data@.len() as int, offset as int);
    let len = data.len();
    let old_size = pool.len();
    let mut index: usize = 0;
    if offset < old_size {
        let upper = if len < old_size - offset {
            offset + len
        } else {
            old_size
        };
        let mut i: usize = offset;
        while i < upper
            invariant
                offset <= i <= upper,
                upper == offset + k || (upper == old_size && k == old_size - offset),
                upper <= old_size,
                k == update_cut(old(pool)@.len() as int, data@.len() as int, offset as int),
                offset < old_size,
                index == i - offset,
                len == data@.len(),
                old_size == old(pool)@.len(),
                pool@.len() == old_size,
                forall|j: int| 0 <= j < old_size && !(offset <= j < i) ==> pool@[j] == old(
                    pool)@[j],
                forall|j: int| offset <= j < i ==> pool@[j] == data@[j - offset],
            decreases upper - i,
        {
            pool[i] = data[index];
            index += 1;
            i += 1;
        }
    }
    proof {
        assert(index == k);
    }
    while index < len
        invariant
            k <= index <= len,
            k == update_cut(old(pool)@.len() as int, data@.len() as int, offset as int),
            len == data@.len(),
            old_size == old(pool)@.len(),
            pool@.len() == old_size + index - k,
            forall|j: int| 0 <= j < old_size && !(offset <= j < offset + k) ==> pool@[j] == old(
                pool)@[j],
            forall|j: int| offset <= j < offset + k ==> pool@[j] == data@[j - offset],
            forall|j: int| old_size <= j < pool@.len() ==> pool@[j] == data@[j - old_size + k],
        decreases len - index,
    {
        pool.push(data[index]);
        index += 1;
    }
    proof {
        assert(pool@ =~= update_spec(old(pool)@, data@, offset as int));
    }
    pool.len()
}

} // verus!
