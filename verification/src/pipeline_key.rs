//! Render pipeline state packed into one wide integer key.
//!
//! Each state field occupies a fixed bit budget; the calculator packs
//! fields from the low bits upward and maintains that the key always
//! fits in the bits allocated so far.

use vstd::prelude::*;

verus! {

use vstd::arithmetic::power2::{pow2, lemma_pow2_adds, lemma_pow2_strictly_increases, lemma2_to64};

/// A packed pipeline state key.
pub type PipelineKey = u128;

/// Accumulator for a pipeline key: the key packed so far and how many
/// bits of it are in use.
#[derive(Debug, Clone, Copy, PartialEq, Eq, Structural)]
pub struct PipelineKeyCalcolator {
    pub key: PipelineKey,
    pub use_bytes: u8,
}

/// The key stays within the bits allocated so far.
pub open spec fn calcolator_wf(c: PipelineKeyCalcolator) -> bool {
    c.use_bytes < 128 && (c.key as nat) < pow2(c.use_bytes as nat)
}

impl PipelineKeyCalcolator {
    /// A fresh accumulator: empty key, no bits used.
    pub fn new() -> (r: PipelineKeyCalcolator)
        ensures
            r.key == 0,
            r.use_bytes == 0,
            calcolator_wf(r),
    {
        proof {
            lemma2_to64();
        }
        PipelineKeyCalcolator { key: 0, use_bytes: 0 }
    }
}

/// `pow2(128)` as the exclusive bound of `u128`.
proof fn lemma_pow2_128()
    ensures
        pow2(128) == 0x100000000000000000000000000000000,
{
    lemma2_to64();
    lemma_pow2_adds(64, 64);
}

/// `2^n` for the bit budgets a key uses.
fn pow2_u128(n: u8) -> (r: u128)
    requires
        n < 128,
    ensures
        r as nat == pow2(n as nat),
{
    proof {
        lemma2_to64();
    }
    let mut i: u8 = 0;
    let mut r: u128 = 1;
    while i < n
        invariant
            0 <= i <= n < 128,
            r as nat == pow2(i as nat),
        decreases n - i,
    {
        proof {
            lemma_pow2_adds(i as nat, 1);
            lemma2_to64();
            let next = (i + 1) as nat;
            if next < 128 {
                lemma_pow2_strictly_increases(next, 128);
            }
            lemma_pow2_128();
        }
        r = r * 2;
        i += 1;
    }
    r
}

/// `d * x <= d * y` for nonnegative `d`.
proof fn lemma_mul_le(d: int, x: int, y: int)
    by (nonlinear_arith)
    requires
        0 <= d,
        x <= y,
    ensures
        d * x <= d * y,
{
}

/// Pack `value` into the next `use_byte` bits of the key: the key
/// grows by `value * 2^use_bytes` and the bit budget advances.
fn push_bits(calcolator: &mut PipelineKeyCalcolator, value: u128, use_byte: u8)
    requires
        calcolator_wf(*old(calcolator)),
        old(calcolator).use_bytes + use_byte < 128,
        (value as nat) < pow2(use_byte as nat),
    ensures
        final(calcolator).key == old(calcolator).key + value * pow2(
            old(calcolator).use_bytes as nat),
        final(calcolator).use_bytes == old(calcolator).use_bytes + use_byte,
        calcolator_wf(*final(calcolator)),
{
    let diff = pow2_u128(calcolator.use_bytes);
    proof {
        let ub = old(calcolator).use_bytes as nat;
        let b = use_byte as nat;
        lemma_pow2_adds(ub, b);
        lemma_pow2_strictly_increases(ub + b, 128);
        lemma_pow2_128();
        // key + value * 2^ub < (value + 1) * 2^ub <= 2^b * 2^ub = 2^(ub + b)
        lemma_mul_le(pow2(ub) as int, value as int + 1, pow2(b) as int);
        assert((value as int + 1) * pow2(ub) as int == value as int * pow2(ub) as int + pow2(
            ub) as int) by (nonlinear_arith);
        assert(pow2(ub) as int * (value as int + 1) == (value as int + 1) * pow2(ub) as int)
            by (nonlinear_arith);
        assert(pow2(ub) as int * pow2(b) as int == pow2(b) as int * pow2(ub) as int)
            by (nonlinear_arith);
    }
    calcolator.key = calcolator.key + value * diff;
    calcolator.use_bytes = calcolator.use_bytes + use_byte;
}

/// Pack the low eight bits of a read or write mask.
pub fn gen_pipeline_read_write_mask_key(value: usize, use_byte: u8,
    calcolator: &mut PipelineKeyCalcolator)
    requires
        calcolator_wf(*old(calcolator)),
        old(calcolator).use_bytes + use_byte < 128,
        use_byte >= 8,
    ensures
        final(calcolator).key == old(calcolator).key + (value & 0xff) * pow2(
            old(calcolator).use_bytes as nat),
        final(calcolator).use_bytes == old(calcolator).use_bytes + use_byte,
        calcolator_wf(*final(calcolator)),
{
    let r = value & 0xff;
    proof {
        assert(value & 0xff < 256) by (bit_vector);
        lemma2_to64();
        if (use_byte as nat) > 8 {
            lemma_pow2_strictly_increases(8, use_byte as nat);
        }
    }
    push_bits(calcolator, r as u128, use_byte);
}

/// Pack a depth-stencil bias mode.
pub fn gen_pipeline_depth_stencil_bias_key(value: u8, use_byte: u8,
    calcolator: &mut PipelineKeyCalcolator)
    requires
        calcolator_wf(*old(calcolator)),
        old(calcolator).use_bytes + use_byte < 128,
        (value as nat) < pow2(use_byte as nat),
    ensures
        final(calcolator).key == old(calcolator).key + value * pow2(
            old(calcolator).use_bytes as nat),
        final(calcolator).use_bytes == old(calcolator).use_bytes + use_byte,
        calcolator_wf(*final(calcolator)),
{
    push_bits(calcolator, value as u128, use_byte);
}

/// Pack a boolean flag: the key layout packs a set flag as 0 and a
/// cleared one as 1.
pub fn gen_pipeline_bool_value_key(value: &bool, use_byte: u8,
    calcolator: &mut PipelineKeyCalcolator)
    requires
        calcolator_wf(*old(calcolator)),
        old(calcolator).use_bytes + use_byte < 128,
        use_byte >= 1,
    ensures
        final(calcolator).key == old(calcolator).key + (if *value { 0int } else { 1int }) * pow2(
            old(calcolator).use_bytes as nat),
        final(calcolator).use_bytes == old(calcolator).use_bytes + use_byte,
        calcolator_wf(*final(calcolator)),
{
    let r: u128 = if *value {
        0
    } else {
        1
    };
    proof {
        lemma2_to64();
        let b = use_byte as nat;
        if b > 1 {
            lemma_pow2_strictly_increases(1, b);
        }
    }
    push_bits(calcolator, r, use_byte);
}


/// Primitive assembly topologies (modeled pipeline state).
#[derive(Debug, Clone, Copy, PartialEq, Eq, Structural)]
pub enum PrimitiveTopology {
    PointList,
    LineList,
    LineStrip,
    TriangleList,
    TriangleStrip,
}

/// Which side a face culls.
#[derive(Debug, Clone, Copy, PartialEq, Eq, Structural)]
pub enum Face {
    Front,
    Back,
}

/// How polygons rasterize.
#[derive(Debug, Clone, Copy, PartialEq, Eq, Structural)]
pub enum PolygonMode {
    Fill,
    Line,
    Point,
}

/// Strip index element width.
#[derive(Debug, Clone, Copy, PartialEq, Eq, Structural)]
pub enum IndexFormat {
    Uint16,
    Uint32,
}

/// Winding order of front faces.
#[derive(Debug, Clone, Copy, PartialEq, Eq, Structural)]
pub enum FrontFace {
    Ccw,
    Cw,
}

/// The depth-stencil texture formats the key distinguishes; every
/// other format packs as zero.
#[derive(Debug, Clone, Copy, PartialEq, Eq, Structural)]
pub enum TextureFormat {
    Depth32Float,
    Depth24Plus,
    Depth24PlusStencil8,
    Other,
}

/// Depth and stencil comparison operators.
#[derive(Debug, Clone, Copy, PartialEq, Eq, Structural)]
pub enum CompareFunction {
    Never,
    Less,
    Equal,
    LessEqual,
    Greater,
    NotEqual,
    GreaterEqual,
    Always,
}

/// Stencil buffer operations.
#[derive(Debug, Clone, Copy, PartialEq, Eq, Structural)]
pub enum StencilOperation {
    Keep,
    Zero,
    Replace,
    Invert,
    IncrementClamp,
    DecrementClamp,
    IncrementWrap,
    DecrementWrap,
}

/// Primitive assembly state (the fields the key packs).
#[derive(Debug, Clone, Copy, PartialEq, Eq, Structural)]
pub struct PrimitiveState {
    pub topology: PrimitiveTopology,
    pub strip_index_format: Option<IndexFormat>,
    pub front_face: FrontFace,
    pub cull_mode: Option<Face>,
    pub polygon_mode: PolygonMode,
    pub unclipped_depth: bool,
    pub conservative: bool,
}

/// Stencil behavior of one face orientation.
#[derive(Debug, Clone, Copy, PartialEq, Eq, Structural)]
pub struct StencilFaceState {
    pub compare: CompareFunction,
    pub fail_op: StencilOperation,
    pub depth_fail_op: StencilOperation,
    pub pass_op: StencilOperation,
}

/// Stencil behavior of both face orientations.
#[derive(Debug, Clone, Copy, PartialEq, Eq, Structural)]
pub struct StencilState {
    pub front: StencilFaceState,
    pub back: StencilFaceState,
}

/// Depth-stencil state (the fields the key packs).
#[derive(Debug, Clone, Copy, PartialEq, Eq, Structural)]
pub struct DepthStencilState {
    pub format: TextureFormat,
    pub depth_write_enabled: bool,
    pub depth_compare: CompareFunction,
    pub stencil: StencilState,
}

/// The packed value of each state field.
pub open spec fn topology_value(t: PrimitiveTopology) -> int {
    match t {
        PrimitiveTopology::PointList => 0,
        PrimitiveTopology::LineList => 1,
        PrimitiveTopology::LineStrip => 2,
        PrimitiveTopology::TriangleList => 3,
        PrimitiveTopology::TriangleStrip => 4,
    }
}

pub open spec fn cull_mode_value(c: Option<Face>) -> int {
    match c {
        Option::Some(Face::Front) => 1,
        Option::Some(Face::Back) => 2,
        Option::None => 0,
    }
}

pub open spec fn polygon_value(p: PolygonMode) -> int {
    match p {
        PolygonMode::Fill => 0,
        PolygonMode::Line => 1,
        PolygonMode::Point => 2,
    }
}

pub open spec fn index_format_value(f: Option<IndexFormat>) -> int {
    match f {
        Option::Some(IndexFormat::Uint16) => 1,
        Option::Some(IndexFormat::Uint32) => 2,
        Option::None => 0,
    }
}

pub open spec fn front_face_value(f: FrontFace) -> int {
    match f {
        FrontFace::Ccw => 0,
        FrontFace::Cw => 1,
    }
}

pub open spec fn texture_format_value(f: TextureFormat) -> int {
    match f {
        TextureFormat::Depth32Float => 1,
        TextureFormat::Depth24Plus => 2,
        TextureFormat::Depth24PlusStencil8 => 3,
        TextureFormat::Other => 0,
    }
}

pub open spec fn compare_value(f: CompareFunction) -> int {
    match f {
        CompareFunction::Never => 0,
        CompareFunction::Less => 1,
        CompareFunction::Equal => 2,
        CompareFunction::LessEqual => 3,
        CompareFunction::Greater => 4,
        CompareFunction::NotEqual => 5,
        CompareFunction::GreaterEqual => 6,
        CompareFunction::Always => 7,
    }
}

pub open spec fn stencil_op_value(f: StencilOperation) -> int {
    match f {
        StencilOperation::Keep => 0,
        StencilOperation::Zero => 1,
        StencilOperation::Replace => 2,
        StencilOperation::Invert => 3,
        StencilOperation::IncrementClamp => 4,
        StencilOperation::DecrementClamp => 5,
        StencilOperation::IncrementWrap => 6,
        StencilOperation::DecrementWrap => 7,
    }
}

pub open spec fn bool_value(b: bool) -> int {
    if b {
        0
    } else {
        1
    }
}

/// One packing step on the accumulator `(key, bits used)`.
pub open spec fn pack(acc: (int, nat), v: int, bits: nat) -> (int, nat) {
    (acc.0 + v * pow2(acc.1), acc.1 + bits)
}

pub open spec fn acc_of(c: PipelineKeyCalcolator) -> (int, nat) {
    (c.key as int, c.use_bytes as nat)
}

/// The whole primitive state packed onto an accumulator, in the fixed
/// field order.
pub open spec fn primitive_packed(acc: (int, nat), p: PrimitiveState) -> (int, nat) {
    pack(pack(pack(pack(pack(pack(pack(acc, topology_value(p.topology), 3), cull_mode_value(
        p.cull_mode), 2), polygon_value(p.polygon_mode), 2), front_face_value(p.front_face), 1),
        index_format_value(p.strip_index_format), 2), bool_value(p.unclipped_depth), 1),
        bool_value(p.conservative), 1)
}

/// The whole depth-stencil state packed onto an accumulator; an absent
/// state reserves the same bits without changing the key.
pub open spec fn depth_stencil_packed(acc: (int, nat), ds: Option<DepthStencilState>,
    bias_mode: u8, bias_bits: nat) -> (int, nat) {
    match ds {
        Option::Some(ds) => pack(pack(pack(pack(pack(pack(pack(pack(pack(pack(pack(pack(acc,
            texture_format_value(ds.format), 2), bool_value(ds.depth_write_enabled), 1),
            compare_value(ds.depth_compare), 3), compare_value(ds.stencil.front.compare), 3),
            stencil_op_value(ds.stencil.front.fail_op), 3), stencil_op_value(
            ds.stencil.front.depth_fail_op), 3), stencil_op_value(ds.stencil.front.pass_op), 3),
            compare_value(ds.stencil.back.compare), 3), stencil_op_value(ds.stencil.back.fail_op),
            3), stencil_op_value(ds.stencil.back.depth_fail_op), 3), stencil_op_value(
            ds.stencil.back.pass_op), 3), bias_mode as int, bias_bits),
        Option::None => (acc.0, acc.1 + 30 + bias_bits),
    }
}

/// Small value budgets the fixed field widths satisfy.
proof fn lemma_small_pow2()
    ensures
        pow2(1) == 2,
        pow2(2) == 4,
        pow2(3) == 8,
{
    lemma2_to64();
}

/// Pack the primitive topology.
pub fn gen_pipeline_primitive_topology_key(topology: &PrimitiveTopology, use_byte: u8,
    calcolator: &mut PipelineKeyCalcolator)
    requires
        calcolator_wf(*old(calcolator)),
        old(calcolator).use_bytes + use_byte < 128,
        use_byte >= 3,
    ensures
        acc_of(*final(calcolator)) == pack(acc_of(*old(calcolator)), topology_value(*topology),
            use_byte as nat),
        calcolator_wf(*final(calcolator)),
{
    let v: u128 = match topology {
        PrimitiveTopology::PointList => 0,
        PrimitiveTopology::LineList => 1,
        PrimitiveTopology::LineStrip => 2,
        PrimitiveTopology::TriangleList => 3,
        PrimitiveTopology::TriangleStrip => 4,
    };
    proof {
        lemma_small_pow2();
        let b = use_byte as nat;
        if b > 3 {
            lemma_pow2_strictly_increases(3, b);
        }
    }
    push_bits(calcolator, v, use_byte);
}

/// Pack the cull mode.
pub fn gen_pipeline_primitive_cull_mode_key(cull_mode: &Option<Face>, use_byte: u8,
    calcolator: &mut PipelineKeyCalcolator)
    requires
        calcolator_wf(*old(calcolator)),
        old(calcolator).use_bytes + use_byte < 128,
        use_byte >= 2,
    ensures
        acc_of(*final(calcolator)) == pack(acc_of(*old(calcolator)), cull_mode_value(*cull_mode),
            use_byte as nat),
        calcolator_wf(*final(calcolator)),
{
    let v: u128 = match cull_mode {
        Option::Some(mode) => match mode {
            Face::Front => 1,
            Face::Back => 2,
        },
        Option::None => 0,
    };
    proof {
        lemma_small_pow2();
        let b = use_byte as nat;
        if b > 2 {
            lemma_pow2_strictly_increases(2, b);
        }
    }
    push_bits(calcolator, v, use_byte);
}

/// Pack the polygon mode.
pub fn gen_pipeline_primitive_polygon_key(polygon: &PolygonMode, use_byte: u8,
    calcolator: &mut PipelineKeyCalcolator)
    requires
        calcolator_wf(*old(calcolator)),
        old(calcolator).use_bytes + use_byte < 128,
        use_byte >= 2,
    ensures
        acc_of(*final(calcolator)) == pack(acc_of(*old(calcolator)), polygon_value(*polygon),
            use_byte as nat),
        calcolator_wf(*final(calcolator)),
{
    let v: u128 = match polygon {
        PolygonMode::Fill => 0,
        PolygonMode::Line => 1,
        PolygonMode::Point => 2,
    };
    proof {
        lemma_small_pow2();
        let b = use_byte as nat;
        if b > 2 {
            lemma_pow2_strictly_increases(2, b);
        }
    }
    push_bits(calcolator, v, use_byte);
}

/// Pack the strip index format.
pub fn gen_pipeline_primitive_index_format_key(strip_index_format: &Option<IndexFormat>,
    use_byte: u8, calcolator: &mut PipelineKeyCalcolator)
    requires
        calcolator_wf(*old(calcolator)),
        old(calcolator).use_bytes + use_byte < 128,
        use_byte >= 2,
    ensures
        acc_of(*final(calcolator)) == pack(acc_of(*old(calcolator)), index_format_value(
            *strip_index_format), use_byte as nat),
        calcolator_wf(*final(calcolator)),
{
    let v: u128 = match strip_index_format {
        Option::Some(format) => match format {
            IndexFormat::Uint16 => 1,
            IndexFormat::Uint32 => 2,
        },
        Option::None => 0,
    };
    proof {
        lemma_small_pow2();
        let b = use_byte as nat;
        if b > 2 {
            lemma_pow2_strictly_increases(2, b);
        }
    }
    push_bits(calcolator, v, use_byte);
}

/// Pack the front-face winding.
pub fn gen_pipeline_primitive_front_face_key(front_face: &FrontFace, use_byte: u8,
    calcolator: &mut PipelineKeyCalcolator)
    requires
        calcolator_wf(*old(calcolator)),
        old(calcolator).use_bytes + use_byte < 128,
        use_byte >= 1,
    ensures
        acc_of(*final(calcolator)) == pack(acc_of(*old(calcolator)), front_face_value(
            *front_face), use_byte as nat),
        calcolator_wf(*final(calcolator)),
{
    let v: u128 = match front_face {
        FrontFace::Ccw => 0,
        FrontFace::Cw => 1,
    };
    proof {
        lemma_small_pow2();
        let b = use_byte as nat;
        if b > 1 {
            lemma_pow2_strictly_increases(1, b);
        }
    }
    push_bits(calcolator, v, use_byte);
}

/// Pack the depth-stencil texture format.
pub fn gen_pipeline_depth_stencil_format_key(value: &TextureFormat, use_byte: u8,
    calcolator: &mut PipelineKeyCalcolator)
    requires
        calcolator_wf(*old(calcolator)),
        old(calcolator).use_bytes + use_byte < 128,
        use_byte >= 2,
    ensures
        acc_of(*final(calcolator)) == pack(acc_of(*old(calcolator)), texture_format_value(
            *value), use_byte as nat),
        calcolator_wf(*final(calcolator)),
{
    let v: u128 = match value {
        TextureFormat::Depth32Float => 1,
        TextureFormat::Depth24Plus => 2,
        TextureFormat::Depth24PlusStencil8 => 3,
        TextureFormat::Other => 0,
    };
    proof {
        lemma_small_pow2();
        let b = use_byte as nat;
        if b > 2 {
            lemma_pow2_strictly_increases(2, b);
        }
    }
    push_bits(calcolator, v, use_byte);
}

/// Pack a comparison operator.
pub fn gen_pipeline_compare_function_value_key(value: &CompareFunction, use_byte: u8,
    calcolator: &mut PipelineKeyCalcolator)
    requires
        calcolator_wf(*old(calcolator)),
        old(calcolator).use_bytes + use_byte < 128,
        use_byte >= 3,
    ensures
        acc_of(*final(calcolator)) == pack(acc_of(*old(calcolator)), compare_value(*value),
            use_byte as nat),
        calcolator_wf(*final(calcolator)),
{
    let v: u128 = match value {
        CompareFunction::Never => 0,
        CompareFunction::Less => 1,
        CompareFunction::Equal => 2,
        CompareFunction::LessEqual => 3,
        CompareFunction::Greater => 4,
        CompareFunction::NotEqual => 5,
        CompareFunction::GreaterEqual => 6,
        CompareFunction::Always => 7,
    };
    proof {
        lemma_small_pow2();
        let b = use_byte as nat;
        if b > 3 {
            lemma_pow2_strictly_increases(3, b);
        }
    }
    push_bits(calcolator, v, use_byte);
}

/// Pack a stencil operation.
pub fn gen_pipeline_stencil_operation_value_key(value: &StencilOperation, use_byte: u8,
    calcolator: &mut PipelineKeyCalcolator)
    requires
        calcolator_wf(*old(calcolator)),
        old(calcolator).use_bytes + use_byte < 128,
        use_byte >= 3,
    ensures
        acc_of(*final(calcolator)) == pack(acc_of(*old(calcolator)), stencil_op_value(*value),
            use_byte as nat),
        calcolator_wf(*final(calcolator)),
{
    let v: u128 = match value {
        StencilOperation::Keep => 0,
        StencilOperation::Zero => 1,
        StencilOperation::Replace => 2,
        StencilOperation::Invert => 3,
        StencilOperation::IncrementClamp => 4,
        StencilOperation::DecrementClamp => 5,
        StencilOperation::IncrementWrap => 6,
        StencilOperation::DecrementWrap => 7,
    };
    proof {
        lemma_small_pow2();
        let b = use_byte as nat;
        if b > 3 {
            lemma_pow2_strictly_increases(3, b);
        }
    }
    push_bits(calcolator, v, use_byte);
}

/// Pack the whole primitive state, in the fixed field order and
/// widths.
pub fn gen_pipeline_primitive_key(calcolator: &mut PipelineKeyCalcolator,
    primitive: &PrimitiveState)
    requires
        calcolator_wf(*old(calcolator)),
        old(calcolator).use_bytes + 12 < 128,
    ensures
        acc_of(*final(calcolator)) == primitive_packed(acc_of(*old(calcolator)), *primitive),
        final(calcolator).use_bytes == old(calcolator).use_bytes + 12,
        calcolator_wf(*final(calcolator)),
{
    gen_pipeline_primitive_topology_key(&primitive.topology, 3, calcolator);
    gen_pipeline_primitive_cull_mode_key(&primitive.cull_mode, 2, calcolator);
    gen_pipeline_primitive_polygon_key(&primitive.polygon_mode, 2, calcolator);
    gen_pipeline_primitive_front_face_key(&primitive.front_face, 1, calcolator);
    gen_pipeline_primitive_index_format_key(&primitive.strip_index_format, 2, calcolator);
    gen_pipeline_bool_value_key(&primitive.unclipped_depth, 1, calcolator);
    gen_pipeline_bool_value_key(&primitive.conservative, 1, calcolator);
}

/// Pack the whole depth-stencil state; an absent state reserves its
/// bits so later fields keep their positions.
#[verifier::rlimit(100)]
pub fn gen_pipeline_depth_stencil_key(calcolator: &mut PipelineKeyCalcolator,
    depth_stencil: &Option<DepthStencilState>, depth_stencil_bias_mode: u8,
    depth_stencil_bias_modes_use_bite: u8)
    requires
        calcolator_wf(*old(calcolator)),
        old(calcolator).use_bytes + 30 + depth_stencil_bias_modes_use_bite < 128,
        (depth_stencil_bias_mode as nat) < pow2(depth_stencil_bias_modes_use_bite as nat),
    ensures
        acc_of(*final(calcolator)) == depth_stencil_packed(acc_of(*old(calcolator)),
            *depth_stencil, depth_stencil_bias_mode,
            depth_stencil_bias_modes_use_bite as nat),
        calcolator_wf(*final(calcolator)),
{
    match depth_stencil {
        Option::Some(depth_stencil) => {
            gen_pipeline_depth_stencil_format_key(&depth_stencil.format, 2, calcolator);
            gen_pipeline_bool_value_key(&depth_stencil.depth_write_enabled, 1, calcolator);
            gen_pipeline_compare_function_value_key(&depth_stencil.depth_compare, 3, calcolator);
            gen_pipeline_compare_function_value_key(&depth_stencil.stencil.front.compare, 3,
                calcolator);
            gen_pipeline_stencil_operation_value_key(&depth_stencil.stencil.front.fail_op, 3,
                calcolator);
            gen_pipeline_stencil_operation_value_key(&depth_stencil.stencil.front.depth_fail_op,
                3, calcolator);
            gen_pipeline_stencil_operation_value_key(&depth_stencil.stencil.front.pass_op, 3,
                calcolator);
            gen_pipeline_compare_function_value_key(&depth_stencil.stencil.back.compare, 3,
                calcolator);
            gen_pipeline_stencil_operation_value_key(&depth_stencil.stencil.back.fail_op, 3,
                calcolator);
            gen_pipeline_stencil_operation_value_key(&depth_stencil.stencil.back.depth_fail_op,
                3, calcolator);
            gen_pipeline_stencil_operation_value_key(&depth_stencil.stencil.back.pass_op, 3,
                calcolator);
            gen_pipeline_depth_stencil_bias_key(depth_stencil_bias_mode,
                depth_stencil_bias_modes_use_bite, calcolator);
        },
        Option::None => {
            calcolator.use_bytes = calcolator.use_bytes + 30
                + depth_stencil_bias_modes_use_bite;
            proof {
                lemma_pow2_strictly_increases(old(calcolator).use_bytes as nat,
                    final(calcolator).use_bytes as nat);
            }
        },
    }
}

/// Pack primitive and depth-stencil state into one pipeline key.
pub fn gen_pipeline_key(calcolator: &mut PipelineKeyCalcolator, primitive: &PrimitiveState,
    depth_stencil: &Option<DepthStencilState>, depth_stencil_bias_mode: u8,
    depth_stencil_bias_modes_use_bite: u8)
    requires
        calcolator_wf(*old(calcolator)),
        old(calcolator).use_bytes + 42 + depth_stencil_bias_modes_use_bite < 128,
        (depth_stencil_bias_mode as nat) < pow2(depth_stencil_bias_modes_use_bite as nat),
    ensures
        acc_of(*final(calcolator)) == depth_stencil_packed(primitive_packed(acc_of(*old(
            calcolator)), *primitive), *depth_stencil, depth_stencil_bias_mode,
            depth_stencil_bias_modes_use_bite as nat),
        calcolator_wf(*final(calcolator)),
{
    gen_pipeline_primitive_key(calcolator, primitive);
    gen_pipeline_depth_stencil_key(calcolator, depth_stencil, depth_stencil_bias_mode,
        depth_stencil_bias_modes_use_bite);
}

} // verus!
