//! The geometry container: per-kind buffer references of one mesh.

use vstd::prelude::*;

verus! {

use crate::data_container::{TVertexBufferKindKey, TGeometryBufferID, GeometryBufferPool,
    EVertexDataFormat};

/// Identifiers of vertex data kinds (the geometry layer's own bound).
pub trait TVertexDataKindKey: Clone + Copy + PartialEq + Eq + PartialOrd + Ord
    + core::hash::Hash {

}

impl TVertexDataKindKey for u8 {

}

impl TVertexDataKindKey for u16 {

}

impl TVertexDataKindKey for u32 {

}

impl TVertexDataKindKey for u64 {

}

impl TVertexDataKindKey for usize {

}

/// A vertex data kind together with its element format.
#[derive(Debug, Clone, Copy, PartialEq, Eq, PartialOrd, Ord, Hash)]
pub struct GeometryDataDesc<VDK: TVertexDataKindKey>(pub VDK, pub EVertexDataFormat);

/// Description of one vertex buffer binding of a mesh.
#[derive(Debug, Clone, Copy, PartialEq, Eq, PartialOrd, Ord, Hash)]
pub struct GeometryBufferDesc<VBK: TVertexBufferKindKey> {
    pub slot: u32,
    pub format: EVertexDataFormat,
    pub kind: VBK,
    pub size_per_vertex: usize,
}

/// Why a buffer cannot be recorded.
#[derive(Debug, Clone, Copy, PartialEq, Eq, Structural)]
pub enum EGeometryError {
    /// The description's format needs a buffer, but none was handed in.
    GeometryDataSetErrorForTargetFormat,
    /// The description was already recorded.
    GeometryDataCannotSetAgainForTargetDesc,
}

/// Value equality of two buffer descriptions, field by field.
fn desc_same<VBK: TVertexBufferKindKey>(a: &GeometryBufferDesc<VBK>, b: &GeometryBufferDesc<VBK>)
    -> (r: bool)
    ensures
        r == (*a == *b),
{
    a.slot == b.slot && a.format == b.format && a.kind.same(&b.kind) && a.size_per_vertex
        == b.size_per_vertex
}

/// Some recorded description equals `d`.
pub open spec fn has_desc<VBK: TVertexBufferKindKey>(s: Seq<GeometryBufferDesc<VBK>>,
    d: GeometryBufferDesc<VBK>) -> bool {
    exists|i: int| 0 <= i < s.len() && s[i] == d
}

/// First recorded description equal to `d` at or after `i`, or -1.
pub open spec fn find_desc_from<VBK: TVertexBufferKindKey>(s: Seq<GeometryBufferDesc<VBK>>,
    d: GeometryBufferDesc<VBK>, i: int) -> int
    decreases s.len() - i,
{
    if i < 0 || i >= s.len() {
        -1
    } else if s[i] == d {
        i
    } else {
        find_desc_from(s, d, i + 1)
    }
}

/// The buffer id at `idx`, if that index exists.
pub open spec fn buffer_at<GBID: TGeometryBufferID>(bufs: Seq<GBID>, idx: int) -> Option<GBID> {
    if 0 <= idx < bufs.len() {
        Option::Some(bufs[idx])
    } else {
        Option::None
    }
}

/// Buffer references of one mesh, grouped by element format; the
/// descriptions and their buffer indices run in parallel.
pub struct Geometry<VBK: TVertexBufferKindKey, GBID: TGeometryBufferID> {
    pub u8_buffers: Vec<GBID>,
    pub u16_buffers: Vec<GBID>,
    pub u32_buffers: Vec<GBID>,
    pub f32_buffers: Vec<GBID>,
    pub f64_buffers: Vec<GBID>,
    pub indices_buffer: Option<GBID>,
    pub indices_buffer_u32: Option<GBID>,
    pub data_descs: Vec<GeometryBufferDesc<VBK>>,
    pub data_indexs: Vec<usize>,
    pub vertex_count_query_desc: Option<GeometryBufferDesc<VBK>>,
    pub instanced_count_query_desc: Option<GeometryBufferDesc<VBK>>,
    pub instance_descs: Vec<GeometryBufferDesc<VBK>>,
    pub instance_indexs: Vec<usize>,
}

/// Descriptions and buffer indices run in parallel.
pub open spec fn geometry_wf<VBK: TVertexBufferKindKey, GBID: TGeometryBufferID>(
    g: Geometry<VBK, GBID>) -> bool {
    &&& g.data_indexs@.len() == g.data_descs@.len()
    &&& g.instance_indexs@.len() == g.instance_descs@.len()
}

/// The buffer sequence of one format.
pub open spec fn bufs_of<VBK: TVertexBufferKindKey, GBID: TGeometryBufferID>(
    g: Geometry<VBK, GBID>, f: EVertexDataFormat) -> Seq<GBID> {
    match f {
        EVertexDataFormat::U8 => g.u8_buffers@,
        EVertexDataFormat::U16 => g.u16_buffers@,
        EVertexDataFormat::U32 => g.u32_buffers@,
        EVertexDataFormat::F32 => g.f32_buffers@,
        EVertexDataFormat::F64 => g.f64_buffers@,
    }
}

/// What a successful `set` changes: the description and the next index
/// of its format pool are appended, the buffer joins that pool, and
/// everything else is untouched.
pub open spec fn set_post<VBK: TVertexBufferKindKey, GBID: TGeometryBufferID>(
    old_g: Geometry<VBK, GBID>, new_g: Geometry<VBK, GBID>, desc: GeometryBufferDesc<VBK>,
    d: GBID) -> bool {
    &&& bufs_of(new_g, desc.format) == bufs_of(old_g, desc.format).push(d)
    &&& forall|f: EVertexDataFormat| f != desc.format ==> bufs_of(new_g, f) == bufs_of(old_g, f)
    &&& new_g.data_descs@ == old_g.data_descs@.push(desc)
    &&& new_g.data_indexs@ == old_g.data_indexs@.push(bufs_of(old_g, desc.format).len() as usize)
    &&& new_g.instance_descs@ == old_g.instance_descs@
    &&& new_g.instance_indexs@ == old_g.instance_indexs@
    &&& new_g.indices_buffer == old_g.indices_buffer
    &&& new_g.indices_buffer_u32 == old_g.indices_buffer_u32
    &&& new_g.vertex_count_query_desc == old_g.vertex_count_query_desc
    &&& new_g.instanced_count_query_desc == old_g.instanced_count_query_desc
}

/// What a successful `set_instance` changes, mirroring `set_post` on
/// the instance side.
pub open spec fn set_instance_post<VBK: TVertexBufferKindKey, GBID: TGeometryBufferID>(
    old_g: Geometry<VBK, GBID>, new_g: Geometry<VBK, GBID>, desc: GeometryBufferDesc<VBK>,
    d: GBID) -> bool {
    &&& bufs_of(new_g, desc.format) == bufs_of(old_g, desc.format).push(d)
    &&& forall|f: EVertexDataFormat| f != desc.format ==> bufs_of(new_g, f) == bufs_of(old_g, f)
    &&& new_g.instance_descs@ == old_g.instance_descs@.push(desc)
    &&& new_g.instance_indexs@ == old_g.instance_indexs@.push(bufs_of(old_g,
        desc.format).len() as usize)
    &&& new_g.data_descs@ == old_g.data_descs@
    &&& new_g.data_indexs@ == old_g.data_indexs@
    &&& new_g.indices_buffer == old_g.indices_buffer
    &&& new_g.indices_buffer_u32 == old_g.indices_buffer_u32
    &&& new_g.vertex_count_query_desc == old_g.vertex_count_query_desc
    &&& new_g.instanced_count_query_desc == old_g.instanced_count_query_desc
}

/// What `get_vertices` returns: the pooled buffer recorded under the
/// first matching description, if any.
pub open spec fn get_vertices_spec<VBK: TVertexBufferKindKey, GBID: TGeometryBufferID>(
    g: Geometry<VBK, GBID>, desc: GeometryBufferDesc<VBK>) -> Option<GBID> {
    let f = find_desc_from(g.data_descs@, desc, 0);
    if f < 0 {
        Option::None
    } else {
        buffer_at(bufs_of(g, desc.format), g.data_indexs@[f] as int)
    }
}

pub open spec fn get_instance_spec<VBK: TVertexBufferKindKey, GBID: TGeometryBufferID>(
    g: Geometry<VBK, GBID>, desc: GeometryBufferDesc<VBK>) -> Option<GBID> {
    let f = find_desc_from(g.instance_descs@, desc, 0);
    if f < 0 {
        Option::None
    } else {
        buffer_at(bufs_of(g, desc.format), g.instance_indexs@[f] as int)
    }
}

/// First index of `descs` whose entry equals `desc`, or none.
fn find_desc<VBK: TVertexBufferKindKey>(descs: &Vec<GeometryBufferDesc<VBK>>,
    desc: &GeometryBufferDesc<VBK>) -> (r: Option<usize>)
    ensures
        r matches Option::Some(i) ==> find_desc_from(descs@, *desc, 0) == i,
        r is None ==> find_desc_from(descs@, *desc, 0) == -1 && !has_desc(descs@, *desc),
{
    let len = descs.len();
    let mut i: usize = 0;
    while i < len
        invariant
            0 <= i <= len,
            len == descs@.len(),
            find_desc_from(descs@, *desc, 0) == find_desc_from(descs@, *desc, i as int),
        decreases len - i,
    {
        if desc_same(&descs[i], desc) {
            return Option::Some(i);
        }
        i += 1;
        proof {
            assert(find_desc_from(descs@, *desc, i - 1) == find_desc_from(descs@, *desc,
                i as int));
        }
    }
    proof {
        assert(find_desc_from(descs@, *desc, len as int) == -1);
        if has_desc(descs@, *desc) {
            let w = choose|j: int| 0 <= j < descs@.len() && descs@[j] == *desc;
            lemma_find_finds(descs@, *desc, w);
            assert(false);
        }
    }
    Option::None
}

/// A matching entry at `w` means the search cannot end at -1.
proof fn lemma_find_finds<VBK: TVertexBufferKindKey>(s: Seq<GeometryBufferDesc<VBK>>,
    d: GeometryBufferDesc<VBK>, w: int)
    requires
        0 <= w < s.len(),
        s[w] == d,
    ensures
        forall|i: int| 0 <= i <= w ==> #[trigger] find_desc_from(s, d, i) >= 0,
    decreases s.len(),
{
    assert forall|i: int| 0 <= i <= w implies #[trigger] find_desc_from(s, d, i) >= 0 by {
        lemma_find_finds_from(s, d, w, i);
    }
}

proof fn lemma_find_finds_from<VBK: TVertexBufferKindKey>(s: Seq<GeometryBufferDesc<VBK>>,
    d: GeometryBufferDesc<VBK>, w: int, i: int)
    requires
        0 <= w < s.len(),
        s[w] == d,
        0 <= i <= w,
    ensures
        find_desc_from(s, d, i) >= 0,
    decreases w - i,
{
    if i < w && s[i] != d {
        lemma_find_finds_from(s, d, w, i + 1);
    }
}

impl<VBK: TVertexBufferKindKey, GBID: TGeometryBufferID> Default for Geometry<VBK, GBID> {
    fn default() -> (r: Geometry<VBK, GBID>)
        ensures
            r.u8_buffers@ == Seq::<GBID>::empty(),
            r.u16_buffers@ == Seq::<GBID>::empty(),
            r.u32_buffers@ == Seq::<GBID>::empty(),
            r.f32_buffers@ == Seq::<GBID>::empty(),
            r.f64_buffers@ == Seq::<GBID>::empty(),
            r.indices_buffer is None,
            r.indices_buffer_u32 is None,
            r.data_descs@ == Seq::<GeometryBufferDesc<VBK>>::empty(),
            r.data_indexs@ == Seq::<usize>::empty(),
            r.vertex_count_query_desc is None,
            r.instanced_count_query_desc is None,
            r.instance_descs@ == Seq::<GeometryBufferDesc<VBK>>::empty(),
            r.instance_indexs@ == Seq::<usize>::empty(),
            geometry_wf(r),
    {
        Geometry::new()
    }
}

impl<VBK: TVertexBufferKindKey, GBID: TGeometryBufferID> Geometry<VBK, GBID> {
    /// An empty geometry: no buffers, descriptions or index sources.
    pub fn new() -> (r: Geometry<VBK, GBID>)
        ensures
            r.u8_buffers@ == Seq::<GBID>::empty(),
            r.u16_buffers@ == Seq::<GBID>::empty(),
            r.u32_buffers@ == Seq::<GBID>::empty(),
            r.f32_buffers@ == Seq::<GBID>::empty(),
            r.f64_buffers@ == Seq::<GBID>::empty(),
            r.indices_buffer is None,
            r.indices_buffer_u32 is None,
            r.data_descs@ == Seq::<GeometryBufferDesc<VBK>>::empty(),
            r.data_indexs@ == Seq::<usize>::empty(),
            r.vertex_count_query_desc is None,
            r.instanced_count_query_desc is None,
            r.instance_descs@ == Seq::<GeometryBufferDesc<VBK>>::empty(),
            r.instance_indexs@ == Seq::<usize>::empty(),
            geometry_wf(r),
    {
        let r = Geometry {
            u8_buffers: Vec::new(),
            u16_buffers: Vec::new(),
            u32_buffers: Vec::new(),
            f32_buffers: Vec::new(),
            f64_buffers: Vec::new(),
            data_descs: Vec::new(),
            data_indexs: Vec::new(),
            indices_buffer: Option::None,
            indices_buffer_u32: Option::None,
            vertex_count_query_desc: Option::None,
            instanced_count_query_desc: Option::None,
            instance_descs: Vec::new(),
            instance_indexs: Vec::new(),
        };
        proof {
            assert(r.u8_buffers@ =~= Seq::<GBID>::empty());
            assert(r.u16_buffers@ =~= Seq::<GBID>::empty());
            assert(r.u32_buffers@ =~= Seq::<GBID>::empty());
            assert(r.f32_buffers@ =~= Seq::<GBID>::empty());
            assert(r.f64_buffers@ =~= Seq::<GBID>::empty());
            assert(r.data_descs@ =~= Seq::<GeometryBufferDesc<VBK>>::empty());
            assert(r.data_indexs@ =~= Seq::<usize>::empty());
            assert(r.instance_descs@ =~= Seq::<GeometryBufferDesc<VBK>>::empty());
            assert(r.instance_indexs@ =~= Seq::<usize>::empty());
        }
        r
    }

    /// Drop every buffer, description and index source.
    pub fn reset(&mut self)
        ensures
            final(self).u8_buffers@ == Seq::<GBID>::empty(),
            final(self).u16_buffers@ == Seq::<GBID>::empty(),
            final(self).u32_buffers@ == Seq::<GBID>::empty(),
            final(self).f32_buffers@ == Seq::<GBID>::empty(),
            final(self).f64_buffers@ == Seq::<GBID>::empty(),
            final(self).indices_buffer is None,
            final(self).indices_buffer_u32 is None,
            final(self).data_descs@ == Seq::<GeometryBufferDesc<VBK>>::empty(),
            final(self).data_indexs@ == Seq::<usize>::empty(),
            final(self).vertex_count_query_desc is None,
            final(self).instanced_count_query_desc is None,
            final(self).instance_descs@ == Seq::<GeometryBufferDesc<VBK>>::empty(),
            final(self).instance_indexs@ == Seq::<usize>::empty(),
            geometry_wf(*final(self)),
    {
        *self = Geometry::new();
    }

    /// Record a vertex buffer under a new description. A repeated
    /// description or a missing buffer changes nothing and reports why.
    pub fn set(&mut self, desc: GeometryBufferDesc<VBK>, data: Option<GBID>) -> (r: Result<(),
        EGeometryError>)
        requires
            geometry_wf(*old(self)),
        ensures
            geometry_wf(*final(self)),
            has_desc(old(self).data_descs@, desc) ==> r == Result::<(), EGeometryError>::Err(
                EGeometryError::GeometryDataCannotSetAgainForTargetDesc) && *final(self) == *old(
                self),
            !has_desc(old(self).data_descs@, desc) && data is None ==> r == Result::<(),
                EGeometryError>::Err(EGeometryError::GeometryDataSetErrorForTargetFormat)
                && *final(self) == *old(self),
            !has_desc(old(self).data_descs@, desc) ==> (data matches Option::Some(d) ==> r
                == Result::<(), EGeometryError>::Ok(()) && set_post(*old(self), *final(self),
                desc, d)),
    {
        match find_desc(&self.data_descs, &desc) {
            Option::Some(_) => {
                proof {
                    let f = find_desc_from(old(self).data_descs@, desc, 0);
                    lemma_find_in_range(old(self).data_descs@, desc, 0);
                    assert(has_desc(old(self).data_descs@, desc));
                }
                Result::Err(EGeometryError::GeometryDataCannotSetAgainForTargetDesc)
            },
            Option::None => {
                match data {
                    Option::Some(data) => {
                        match desc.format {
                            EVertexDataFormat::U8 => {
                                self.data_descs.push(desc);
                                self.data_indexs.push(self.u8_buffers.len());
                                self.u8_buffers.push(data);
                            },
                            EVertexDataFormat::U16 => {
                                self.data_descs.push(desc);
                                self.data_indexs.push(self.u16_buffers.len());
                                self.u16_buffers.push(data);
                            },
                            EVertexDataFormat::U32 => {
                                self.data_descs.push(desc);
                                self.data_indexs.push(self.u32_buffers.len());
                                self.u32_buffers.push(data);
                            },
                            EVertexDataFormat::F32 => {
                                self.data_descs.push(desc);
                                self.data_indexs.push(self.f32_buffers.len());
                                self.f32_buffers.push(data);
                            },
                            EVertexDataFormat::F64 => {
                                self.data_descs.push(desc);
                                self.data_indexs.push(self.f64_buffers.len());
                                self.f64_buffers.push(data);
                            },
                        }
                        Result::Ok(())
                    },
                    Option::None => Result::Err(
                        EGeometryError::GeometryDataSetErrorForTargetFormat),
                }
            },
        }
    }

    /// Record an instance buffer under a new description, mirroring
    /// `set` on the instance side.
    pub fn set_instance(&mut self, desc: GeometryBufferDesc<VBK>, data: Option<GBID>)
        -> (r: Result<(), EGeometryError>)
        requires
            geometry_wf(*old(self)),
        ensures
            geometry_wf(*final(self)),
            has_desc(old(self).instance_descs@, desc) ==> r == Result::<(),
                EGeometryError>::Err(EGeometryError::GeometryDataCannotSetAgainForTargetDesc)
                && *final(self) == *old(self),
            !has_desc(old(self).instance_descs@, desc) && data is None ==> r == Result::<(),
                EGeometryError>::Err(EGeometryError::GeometryDataSetErrorForTargetFormat)
                && *final(self) == *old(self),
            !has_desc(old(self).instance_descs@, desc) ==> (data matches Option::Some(d) ==> r
                == Result::<(), EGeometryError>::Ok(()) && set_instance_post(*old(self),
                *final(self), desc, d)),
    {
        match find_desc(&self.instance_descs, &desc) {
            Option::Some(_) => {
                proof {
                    lemma_find_in_range(old(self).instance_descs@, desc, 0);
                    assert(has_desc(old(self).instance_descs@, desc));
                }
                Result::Err(EGeometryError::GeometryDataCannotSetAgainForTargetDesc)
            },
            Option::None => {
                match data {
                    Option::Some(data) => {
                        match desc.format {
                            EVertexDataFormat::U8 => {
                                self.instance_descs.push(desc);
                                self.instance_indexs.push(self.u8_buffers.len());
                                self.u8_buffers.push(data);
                            },
                            EVertexDataFormat::U16 => {
                                self.instance_descs.push(desc);
                                self.instance_indexs.push(self.u16_buffers.len());
                                self.u16_buffers.push(data);
                            },
                            EVertexDataFormat::U32 => {
                                self.instance_descs.push(desc);
                                self.instance_indexs.push(self.u32_buffers.len());
                                self.u32_buffers.push(data);
                            },
                            EVertexDataFormat::F32 => {
                                self.instance_descs.push(desc);
                                self.instance_indexs.push(self.f32_buffers.len());
                                self.f32_buffers.push(data);
                            },
                            EVertexDataFormat::F64 => {
                                self.instance_descs.push(desc);
                                self.instance_indexs.push(self.f64_buffers.len());
                                self.f64_buffers.push(data);
                            },
                        }
                        Result::Ok(())
                    },
                    Option::None => Result::Err(
                        EGeometryError::GeometryDataSetErrorForTargetFormat),
                }
            },
        }
    }

    /// The vertex buffer recorded under the first description equal to
    /// `desc`, if any (see `get_vertices_spec`).
    pub fn get_vertices(&self, desc: &GeometryBufferDesc<VBK>) -> (r: Option<GBID>)
        requires
            geometry_wf(*self),
        ensures
            r == get_vertices_spec(*self, *desc),
    {
        match find_desc(&self.data_descs, desc) {
            Option::Some(i) => {
                proof {
                    lemma_find_in_range(self.data_descs@, *desc, 0);
                }
                let index = self.data_indexs[i];
                match desc.format {
                    EVertexDataFormat::U8 => buf_get(&self.u8_buffers, index),
                    EVertexDataFormat::U16 => buf_get(&self.u16_buffers, index),
                    EVertexDataFormat::U32 => buf_get(&self.u32_buffers, index),
                    EVertexDataFormat::F32 => buf_get(&self.f32_buffers, index),
                    EVertexDataFormat::F64 => buf_get(&self.f64_buffers, index),
                }
            },
            Option::None => Option::None,
        }
    }

    /// The instance buffer recorded under the first description equal
    /// to `desc`, if any (see `get_instance_spec`).
    pub fn get_instance(&self, desc: &GeometryBufferDesc<VBK>) -> (r: Option<GBID>)
        requires
            geometry_wf(*self),
        ensures
            r == get_instance_spec(*self, *desc),
    {
        match find_desc(&self.instance_descs, desc) {
            Option::Some(i) => {
                proof {
                    lemma_find_in_range(self.instance_descs@, *desc, 0);
                }
                let index = self.instance_indexs[i];
                match desc.format {
                    EVertexDataFormat::U8 => buf_get(&self.u8_buffers, index),
                    EVertexDataFormat::U16 => buf_get(&self.u16_buffers, index),
                    EVertexDataFormat::U32 => buf_get(&self.u32_buffers, index),
                    EVertexDataFormat::F32 => buf_get(&self.f32_buffers, index),
                    EVertexDataFormat::F64 => buf_get(&self.f64_buffers, index),
                }
            },
            Option::None => Option::None,
        }
    }

    /// Record which pooled buffer holds the index data.
    pub fn set_indices(&mut self, data: Option<GBID>)
        ensures
            final(self).indices_buffer == data,
            final(self).u8_buffers@ == old(self).u8_buffers@,
            final(self).u16_buffers@ == old(self).u16_buffers@,
            final(self).u32_buffers@ == old(self).u32_buffers@,
            final(self).f32_buffers@ == old(self).f32_buffers@,
            final(self).f64_buffers@ == old(self).f64_buffers@,
            final(self).indices_buffer_u32 == old(self).indices_buffer_u32,
            final(self).data_descs@ == old(self).data_descs@,
            final(self).data_indexs@ == old(self).data_indexs@,
            final(self).vertex_count_query_desc == old(self).vertex_count_query_desc,
            final(self).instanced_count_query_desc == old(self).instanced_count_query_desc,
            final(self).instance_descs@ == old(self).instance_descs@,
            final(self).instance_indexs@ == old(self).instance_indexs@,
    {
        self.indices_buffer = data;
    }

    /// The recorded index buffer, if any.
    pub fn get_indices(&self) -> (r: Option<GBID>)
        ensures
            r == self.indices_buffer,
    {
        match self.indices_buffer {
            Option::Some(data) => Option::Some(data),
            Option::None => Option::None,
        }
    }

    /// Record which buffer description the vertex count is read from.
    pub fn vertex_count_query_desc(&mut self, desc: GeometryBufferDesc<VBK>)
        ensures
            final(self).vertex_count_query_desc == Option::Some(desc),
            final(self).u8_buffers@ == old(self).u8_buffers@,
            final(self).u16_buffers@ == old(self).u16_buffers@,
            final(self).u32_buffers@ == old(self).u32_buffers@,
            final(self).f32_buffers@ == old(self).f32_buffers@,
            final(self).f64_buffers@ == old(self).f64_buffers@,
            final(self).indices_buffer == old(self).indices_buffer,
            final(self).indices_buffer_u32 == old(self).indices_buffer_u32,
            final(self).data_descs@ == old(self).data_descs@,
            final(self).data_indexs@ == old(self).data_indexs@,
            final(self).instanced_count_query_desc == old(self).instanced_count_query_desc,
            final(self).instance_descs@ == old(self).instance_descs@,
            final(self).instance_indexs@ == old(self).instance_indexs@,
    {
        self.vertex_count_query_desc = Option::Some(desc);
    }

    /// Record which buffer description the instance count is read from.
    pub fn instanced_count_query_desc(&mut self, desc: GeometryBufferDesc<VBK>)
        ensures
            final(self).instanced_count_query_desc == Option::Some(desc),
            final(self).u8_buffers@ == old(self).u8_buffers@,
            final(self).u16_buffers@ == old(self).u16_buffers@,
            final(self).u32_buffers@ == old(self).u32_buffers@,
            final(self).f32_buffers@ == old(self).f32_buffers@,
            final(self).f64_buffers@ == old(self).f64_buffers@,
            final(self).indices_buffer == old(self).indices_buffer,
            final(self).indices_buffer_u32 == old(self).indices_buffer_u32,
            final(self).data_descs@ == old(self).data_descs@,
            final(self).data_indexs@ == old(self).data_indexs@,
            final(self).vertex_count_query_desc == old(self).vertex_count_query_desc,
            final(self).instance_descs@ == old(self).instance_descs@,
            final(self).instance_indexs@ == old(self).instance_indexs@,
    {
        self.instanced_count_query_desc = Option::Some(desc);
    }

    /// The vertex count: the recorded size of the buffer behind the
    /// vertex-count description, divided by its per-vertex size. None
    /// when no description or buffer is recorded, or the per-vertex
    /// size is zero.
    pub fn get_vertices_number<GBP: GeometryBufferPool<GBID>>(&self, pool: &GBP)
        -> (r: Option<usize>)
        requires
            geometry_wf(*self),
        ensures
            ({
                match self.vertex_count_query_desc {
                    Option::Some(desc) => match get_vertices_spec(*self, desc) {
                        Option::Some(id) => if desc.size_per_vertex == 0 {
                            r is None
                        } else {
                            r == Option::Some((pool.size_of(id) / desc.size_per_vertex) as usize)
                        },
                        Option::None => r is None,
                    },
                    Option::None => r is None,
                }
            }),
    {
        match self.vertex_count_query_desc {
            Option::Some(desc) => {
                match self.get_vertices(&desc) {
                    Option::Some(id) => {
                        if desc.size_per_vertex == 0 {
                            Option::None
                        } else {
                            Option::Some(pool.get_size(&id) / desc.size_per_vertex)
                        }
                    },
                    Option::None => Option::None,
                }
            },
            Option::None => Option::None,
        }
    }

    /// The instance count, defaulting to one draw instance when no
    /// instance-count source is recorded (or its per-vertex size is
    /// zero).
    pub fn get_instanced_number<GBP: GeometryBufferPool<GBID>>(&self, pool: &GBP) -> (r: usize)
        requires
            geometry_wf(*self),
        ensures
            ({
                match self.instanced_count_query_desc {
                    Option::Some(desc) => match get_instance_spec(*self, desc) {
                        Option::Some(id) => if desc.size_per_vertex == 0 {
                            r == 1usize
                        } else {
                            r == pool.size_of(id) / desc.size_per_vertex
                        },
                        Option::None => r == 1usize,
                    },
                    Option::None => r == 1usize,
                }
            }),
    {
        match self.instanced_count_query_desc {
            Option::Some(desc) => {
                match self.get_instance(&desc) {
                    Option::Some(id) => {
                        if desc.size_per_vertex == 0 {
                            1
                        } else {
                            pool.get_size(&id) / desc.size_per_vertex
                        }
                    },
                    Option::None => 1,
                }
            },
            Option::None => 1,
        }
    }
}

/// The recorded search index is a real position holding the value.
proof fn lemma_find_in_range<VBK: TVertexBufferKindKey>(s: Seq<GeometryBufferDesc<VBK>>,
    d: GeometryBufferDesc<VBK>, i: int)
    requires
        0 <= i,
    ensures
        find_desc_from(s, d, i) >= 0 ==> i <= find_desc_from(s, d, i) < s.len() && s[
            find_desc_from(s, d, i)] == d,
    decreases s.len() - i,
{
    if i < s.len() && s[i] != d {
        lemma_find_in_range(s, d, i + 1);
    }
}

/// Copy out the buffer id at `index`, if it exists.
fn buf_get<GBID: TGeometryBufferID>(bufs: &Vec<GBID>, index: usize) -> (r: Option<GBID>)
    ensures
        r == buffer_at(bufs@, index as int),
{
    if index < bufs.len() {
        Option::Some(bufs[index])
    } else {
        Option::None
    }
}

} // verus!
