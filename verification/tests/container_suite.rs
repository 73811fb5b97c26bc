use pi_scene::coordiante_system::{CoordinateSytem3, ECoordinateSytem3};
use pi_scene::matrix::Matrix4;
use pi_scene::vector::Vector3;
use pi_scene::data_container::{update, EVertexDataFormat};
use pi_scene::geometry::{EGeometryError, Geometry, GeometryBufferDesc};
use pi_scene::material::{EUniformDataFormat, MaterialUniformDesc};
use pi_scene::pipeline_key::{
    gen_pipeline_bool_value_key, gen_pipeline_depth_stencil_bias_key, gen_pipeline_key,
    gen_pipeline_read_write_mask_key, CompareFunction, DepthStencilState, Face, FrontFace,
    PipelineKeyCalcolator, PolygonMode, PrimitiveState, PrimitiveTopology, StencilFaceState,
    StencilState, StencilOperation, TextureFormat,
};
use pi_scene::uniform_info::calc_uniform_size;

fn desc(slot: u32, format: EVertexDataFormat, kind: u32, spv: usize) -> GeometryBufferDesc<u32> {
    GeometryBufferDesc { slot, format, kind, size_per_vertex: spv }
}

#[test]
fn geometry_set_and_get() {
    let mut g: Geometry<u32, u32> = Geometry::new();
    let d0 = desc(0, EVertexDataFormat::U32, 1, 4);
    let d1 = desc(1, EVertexDataFormat::F32, 2, 12);

    assert_eq!(g.set(d0, Some(7)), Ok(()));
    assert_eq!(
        g.set(d0, Some(8)),
        Err(EGeometryError::GeometryDataCannotSetAgainForTargetDesc)
    );
    assert_eq!(
        g.set(d1, None),
        Err(EGeometryError::GeometryDataSetErrorForTargetFormat)
    );
    assert_eq!(g.set(d1, Some(9)), Ok(()));

    assert_eq!(g.get_vertices(&d0), Some(7));
    assert_eq!(g.get_vertices(&d1), Some(9));
    assert_eq!(g.get_vertices(&desc(9, EVertexDataFormat::U8, 3, 1)), None);

    // Instance buffers live in the same pools but their own catalog.
    let di = desc(2, EVertexDataFormat::U32, 4, 8);
    assert_eq!(g.set_instance(di, Some(21)), Ok(()));
    assert_eq!(g.get_instance(&di), Some(21));
    assert_eq!(g.get_vertices(&di), None);

    assert_eq!(g.get_indices(), None);
    g.set_indices(Some(5));
    assert_eq!(g.get_indices(), Some(5));

    g.reset();
    assert_eq!(g.get_vertices(&d0), None);
    assert_eq!(g.get_indices(), None);
}

#[test]
fn buffer_pool_update_overwrites_then_appends() {
    let mut pool: Vec<u32> = vec![1, 2, 3, 4, 5];
    let n = update(&mut pool, &[9, 9, 9], 3);
    assert_eq!(pool, vec![1, 2, 3, 9, 9, 9]);
    assert_eq!(n, 6);

    let mut pool2: Vec<u32> = vec![1, 2, 3];
    let n2 = update(&mut pool2, &[7, 8], 10);
    assert_eq!(pool2, vec![1, 2, 3, 7, 8]);
    assert_eq!(n2, 5);

    let mut pool3: Vec<u32> = vec![1, 2, 3, 4];
    let n3 = update(&mut pool3, &[6, 6], 1);
    assert_eq!(pool3, vec![1, 6, 6, 4]);
    assert_eq!(n3, 4);
}

#[test]
fn uniform_buffer_size_follows_the_packing_rule() {
    let float = MaterialUniformDesc::<u32> { kind: 0, bind: 0, format: EUniformDataFormat::Float };
    let mat4 = MaterialUniformDesc::<u32> { kind: 1, bind: 0, format: EUniformDataFormat::Mat4 };
    let empty: Vec<MaterialUniformDesc<u32>> = Vec::new();
    assert_eq!(MaterialUniformDesc::calc_buffer_size(&empty), 0);
    assert_eq!(MaterialUniformDesc::calc_buffer_size(&vec![float]), 8);
    assert_eq!(MaterialUniformDesc::calc_buffer_size(&vec![float, mat4]), 84);
    assert_eq!(EUniformDataFormat::Mat4.match_uniform_size(), 64);
    assert_eq!(EUniformDataFormat::Mat4.fill_size(), 16);
    assert_eq!(EUniformDataFormat::Color4.match_uniform_size(), 16);
}

#[test]
fn pipeline_key_packs_fields_from_the_low_bits() {
    let mut c = PipelineKeyCalcolator::new();
    assert_eq!(c.key, 0);
    assert_eq!(c.use_bytes, 0);
    gen_pipeline_bool_value_key(&false, 1, &mut c);
    assert_eq!(c.key, 1);
    assert_eq!(c.use_bytes, 1);
    gen_pipeline_read_write_mask_key(0x1AB, 8, &mut c);
    assert_eq!(c.key, 1 + 0xAB * 2);
    assert_eq!(c.use_bytes, 9);
    gen_pipeline_depth_stencil_bias_key(5, 5, &mut c);
    assert_eq!(c.key, 343 + 5 * 512);
    assert_eq!(c.use_bytes, 14);
    // A set flag packs as zero.
    gen_pipeline_bool_value_key(&true, 1, &mut c);
    assert_eq!(c.key, 2903);
    assert_eq!(c.use_bytes, 15);
}

#[test]
fn pipeline_key_packs_whole_states() {
    let primitive = PrimitiveState {
        topology: PrimitiveTopology::TriangleList,
        strip_index_format: None,
        front_face: FrontFace::Ccw,
        cull_mode: Some(Face::Back),
        polygon_mode: PolygonMode::Fill,
        unclipped_depth: false,
        conservative: false,
    };
    let mut c = PipelineKeyCalcolator::new();
    gen_pipeline_key(&mut c, &primitive, &None, 0, 5);
    assert_eq!(c.key, 3091);
    assert_eq!(c.use_bytes, 47);

    let ds = DepthStencilState {
        format: TextureFormat::Depth24Plus,
        depth_write_enabled: true,
        depth_compare: CompareFunction::LessEqual,
        stencil: StencilState {
            front: StencilFaceState {
                compare: CompareFunction::Always,
                fail_op: StencilOperation::Keep,
                depth_fail_op: StencilOperation::Zero,
                pass_op: StencilOperation::Replace,
            },
            back: StencilFaceState {
                compare: CompareFunction::Never,
                fail_op: StencilOperation::Invert,
                depth_fail_op: StencilOperation::IncrementClamp,
                pass_op: StencilOperation::DecrementWrap,
            },
        },
    };
    let mut c2 = PipelineKeyCalcolator::new();
    pi_scene::pipeline_key::gen_pipeline_depth_stencil_key(&mut c2, &Some(ds), 5, 5);
    assert_eq!(c2.key, 6381703642);
    assert_eq!(c2.use_bytes, 35);
}

#[test]
fn uniform_size_rounds_up_to_the_alignment() {
    assert_eq!(calc_uniform_size(256, 100), 256);
    assert_eq!(calc_uniform_size(256, 256), 256);
    assert_eq!(calc_uniform_size(256, 257), 512);
    assert_eq!(calc_uniform_size(64, 0), 0);
}

#[test]
fn test_transform() {
    let coordiante_sys = CoordinateSytem3::default();
    let _ = coordiante_sys;

    let v0 = Vector3::new(1, 1, 1);
    // Translate by (100, 0, 0), then scale everything by 2: the
    // combined transform doubles the point and moves it by 200.
    let transformation = Matrix4::new(2, 0, 0, 200, 0, 2, 0, 0, 0, 0, 2, 0, 0, 0, 0, 1);
    println!("{:?}", transformation);

    let mut v1 = Vector3::zeros();
    CoordinateSytem3::transform_coordinates(&v0, &transformation, &mut v1);
    println!("{:?}", v1);
    assert_eq!(v1, Vector3::new(202, 2, 2));
    let mut n1 = Vector3::zeros();
    CoordinateSytem3::transform_normal(&v0, &transformation, &mut n1);
    println!("{:?}", n1);
    assert_eq!(n1, Vector3::new(2, 2, 2));

    let mut v2 = Vector3::zeros();
    CoordinateSytem3::transform_coordinates_floats(1, 2, 3, &transformation, &mut v2);
    assert_eq!(v2, Vector3::new(202, 4, 6));
    let mut n2 = Vector3::zeros();
    CoordinateSytem3::transform_normal_floats(1, 2, 3, &transformation, &mut n2);
    assert_eq!(n2, Vector3::new(2, 4, 6));
}

#[test]
fn coordinate_system_modes() {
    assert_eq!(CoordinateSytem3::left().mode(), ECoordinateSytem3::Left);
    assert_eq!(CoordinateSytem3::right().mode(), ECoordinateSytem3::Right);
    assert_eq!(CoordinateSytem3::default().mode(), ECoordinateSytem3::Left);
}

#[test]
fn spine_shader_slot_ids() {
    assert_eq!(pi_scene::spine::shaders::colored::APositionVertexBuffer::id(), 0);
    assert_eq!(pi_scene::spine::shaders::colored::AColorVertexBuffer::id(), 1);
    assert_eq!(
        pi_scene::spine::shaders::two_colored_textured::APositionVertexBuffer::id(),
        0
    );
    assert_eq!(pi_scene::spine::shaders::two_colored_textured::AColorVertexBuffer::id(), 1);
    assert_eq!(pi_scene::spine::shaders::two_colored_textured::AColor2VertexBuffer::id(), 2);
    assert_eq!(
        pi_scene::spine::shaders::two_colored_textured::ATexCoordVertexBuffer::id(),
        3
    );
}
