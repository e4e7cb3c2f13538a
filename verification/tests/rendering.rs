use wgsl_sema::render::{push_signed, push_unsigned, unsigned_to_string};
use wgsl_sema::type_ref::{
    AccessMode, ArraySize, ArrayType, AtomicType, MatrixType, PointerType, SamplerType,
    ScalarType, StorageClass, TextureDimension, TextureKind, TextureType, TypeReference,
    VecDimensionality, VecType,
};

fn f32_type() -> Box<TypeReference> {
    Box::new(TypeReference::Scalar(ScalarType::Float32))
}

fn texture(dimension: TextureDimension, arrayed: bool, multisampled: bool, kind: TextureKind) -> TextureType {
    TextureType { dimension, arrayed, multisampled, kind }
}

#[test]
fn render_error_path_and_scalars() {
    assert_eq!(TypeReference::Error.to_string(), "[error]");
    assert_eq!(TypeReference::Path("Light".to_string()).to_string(), "Light");
    assert_eq!(ScalarType::Bool.to_string(), "bool");
    assert_eq!(ScalarType::Float32.to_string(), "f32");
    assert_eq!(ScalarType::Int32.to_string(), "i32");
    assert_eq!(ScalarType::Uint32.to_string(), "u32");
    assert_eq!(TypeReference::Scalar(ScalarType::Uint32).to_string(), "u32");
}

#[test]
fn render_vectors_and_matrices() {
    assert_eq!(VecDimensionality::Two.to_string(), "2");
    assert_eq!(VecDimensionality::Three.to_string(), "3");
    assert_eq!(VecDimensionality::Four.to_string(), "4");
    assert_eq!(VecType { size: VecDimensionality::Two, inner: f32_type() }.to_string(), "vec2<f32>");
    let matrix = MatrixType { columns: VecDimensionality::Two, rows: VecDimensionality::Four, inner: f32_type() };
    assert_eq!(matrix.to_string(), "mat2x4<f32>");
    assert_eq!(TypeReference::Matrix(matrix).to_string(), "mat2x4<f32>");
}

#[test]
fn render_sampled_textures() {
    let sampled = || TextureKind::Sampled(f32_type());
    assert_eq!(texture(TextureDimension::D1, false, false, sampled()).to_string(), "texture_1d<f32>");
    assert_eq!(texture(TextureDimension::D2, true, false, sampled()).to_string(), "texture_2d_array<f32>");
    assert_eq!(texture(TextureDimension::D3, false, false, sampled()).to_string(), "texture_3d<f32>");
    assert_eq!(texture(TextureDimension::Cube, true, false, sampled()).to_string(), "texture_cube_array<f32>");
    assert_eq!(
        texture(TextureDimension::D2, false, true, sampled()).to_string(),
        "texture_multisampled_2d<f32>"
    );
}

#[test]
fn render_storage_textures() {
    let storage = |mode: AccessMode| TextureKind::Storage("rgba8unorm".to_string(), mode);
    assert_eq!(
        texture(TextureDimension::D2, false, false, storage(AccessMode::Write)).to_string(),
        "texture_storage_2d<rgba8unorm, write>"
    );
    assert_eq!(
        texture(TextureDimension::D2, true, false, storage(AccessMode::Read)).to_string(),
        "texture_storage_2d_array<rgba8unorm, read>"
    );
    assert_eq!(
        texture(TextureDimension::D1, true, true, storage(AccessMode::ReadWrite)).to_string(),
        "texture_storage_1d_multisampled_array<rgba8unorm, read_write>"
    );
    assert_eq!(
        texture(TextureDimension::D3, false, false, storage(AccessMode::Any)).to_string(),
        "texture_storage_3d<rgba8unorm, _>"
    );
}

#[test]
fn render_depth_and_external_textures() {
    assert_eq!(texture(TextureDimension::D2, false, false, TextureKind::Depth).to_string(), "texture_depth_2d");
    assert_eq!(
        texture(TextureDimension::Cube, true, false, TextureKind::Depth).to_string(),
        "texture_depth_cube_array"
    );
    assert_eq!(
        texture(TextureDimension::D2, false, true, TextureKind::Depth).to_string(),
        "texture_depth_multisampled_2d"
    );
    assert_eq!(texture(TextureDimension::D1, false, false, TextureKind::External).to_string(), "texture_external");
    assert_eq!(
        TypeReference::Texture(texture(TextureDimension::D1, true, true, TextureKind::External)).to_string(),
        "texture_external"
    );
}

#[test]
fn render_dimensions_modes_and_classes() {
    assert_eq!(TextureDimension::D1.to_string(), "1d");
    assert_eq!(TextureDimension::D2.to_string(), "2d");
    assert_eq!(TextureDimension::D3.to_string(), "3d");
    assert_eq!(TextureDimension::Cube.to_string(), "cube");
    assert_eq!(AccessMode::ReadWrite.to_string(), "read_write");
    assert_eq!(AccessMode::Read.to_string(), "read");
    assert_eq!(AccessMode::Write.to_string(), "write");
    assert_eq!(AccessMode::Any.to_string(), "_");
    assert_eq!(StorageClass::Function.to_string(), "function");
    assert_eq!(StorageClass::Private.to_string(), "private");
    assert_eq!(StorageClass::Workgroup.to_string(), "workgroup");
    assert_eq!(StorageClass::Uniform.to_string(), "uniform");
    assert_eq!(StorageClass::Storage.to_string(), "storage");
    assert_eq!(StorageClass::Handle.to_string(), "handle");
    assert_eq!(StorageClass::PushConstant.to_string(), "push_constant");
}

#[test]
fn render_samplers_and_atomics() {
    assert_eq!(SamplerType { comparison: false }.to_string(), "sampler");
    assert_eq!(SamplerType { comparison: true }.to_string(), "sampler_comparison");
    assert_eq!(TypeReference::Sampler(SamplerType { comparison: true }).to_string(), "sampler_comparison");
    let atomic = AtomicType { inner: Box::new(TypeReference::Scalar(ScalarType::Uint32)) };
    assert_eq!(atomic.to_string(), "atomic<u32>");
    assert_eq!(TypeReference::Atomic(atomic).to_string(), "atomic<u32>");
}

#[test]
fn render_arrays() {
    let array = |binding_array: bool, size: ArraySize| ArrayType { inner: f32_type(), binding_array, size };
    assert_eq!(array(false, ArraySize::Dynamic).to_string(), "array<f32>");
    assert_eq!(array(true, ArraySize::Dynamic).to_string(), "binding_array<f32>");
    assert_eq!(array(false, ArraySize::Int(4)).to_string(), "array<f32, 4>");
    assert_eq!(array(false, ArraySize::Int(-12)).to_string(), "array<f32, -12>");
    assert_eq!(array(false, ArraySize::Int(i64::MIN)).to_string(), "array<f32, -9223372036854775808>");
    assert_eq!(array(true, ArraySize::Uint(u64::MAX)).to_string(), "binding_array<f32, 18446744073709551615u>");
    assert_eq!(array(false, ArraySize::Uint(0)).to_string(), "array<f32, 0u>");
    assert_eq!(array(false, ArraySize::Path("COUNT".to_string())).to_string(), "array<f32, COUNT>");
    assert_eq!(TypeReference::Array(array(false, ArraySize::Uint(10))).to_string(), "array<f32, 10u>");
}

#[test]
fn sizes_as_written() {
    assert_eq!(ArraySize::Int(4).to_string(), "4");
    assert_eq!(ArraySize::Int(-4).to_string(), "-4");
    assert_eq!(ArraySize::Int(0).to_string(), "0");
    assert_eq!(ArraySize::Int(i64::MIN).to_string(), "-9223372036854775808");
    assert_eq!(ArraySize::Uint(4).to_string(), "4u");
    assert_eq!(ArraySize::Uint(0).to_string(), "0u");
    assert_eq!(ArraySize::Uint(u64::MAX).to_string(), "18446744073709551615u");
    assert_eq!(ArraySize::Path("COUNT".to_string()).to_string(), "COUNT");
    assert_eq!(ArraySize::Dynamic.to_string(), "");
}

#[test]
fn sizes_that_differ_are_spelled_apart() {
    let sizes = || {
        vec![
            ArraySize::Dynamic,
            ArraySize::Int(0),
            ArraySize::Int(4),
            ArraySize::Int(-4),
            ArraySize::Int(40),
            ArraySize::Uint(0),
            ArraySize::Uint(4),
            ArraySize::Uint(40),
            ArraySize::Path("u".to_string()),
            ArraySize::Path("u4".to_string()),
            ArraySize::Path("_4u".to_string()),
        ]
    };
    for (i, a) in sizes().into_iter().enumerate() {
        for (j, b) in sizes().into_iter().enumerate() {
            let array = |size: ArraySize| ArrayType { inner: f32_type(), binding_array: false, size };
            assert_eq!(a.to_string() == b.to_string(), i == j);
            assert_eq!(array(a.clone()).to_string() == array(b).to_string(), i == j);
        }
    }
}

#[test]
fn signed_and_unsigned_sizes_are_spelled_apart() {
    let array = |binding_array: bool, size: ArraySize| ArrayType { inner: f32_type(), binding_array, size };
    assert_eq!(array(false, ArraySize::Int(4)).to_string(), "array<f32, 4>");
    assert_eq!(array(false, ArraySize::Uint(4)).to_string(), "array<f32, 4u>");
    for (signed, unsigned) in [(0, 0), (4, 4), (-1, 1), (i64::MAX, u64::MAX), (10, 1)] {
        for binding_array in [false, true] {
            assert_ne!(
                array(binding_array, ArraySize::Int(signed)).to_string(),
                array(binding_array, ArraySize::Uint(unsigned)).to_string()
            );
        }
    }
}

#[test]
fn render_pointer_leaves_the_access_mode_out() {
    let pointer = |access_mode: AccessMode| PointerType {
        storage_class: StorageClass::Storage,
        access_mode,
        inner: f32_type(),
    };
    assert_eq!(pointer(AccessMode::Read).to_string(), "ptr<storage, f32>");
    assert_eq!(pointer(AccessMode::ReadWrite).to_string(), "ptr<storage, f32>");
    assert_eq!(TypeReference::Pointer(pointer(AccessMode::Write)).to_string(), "ptr<storage, f32>");
}

#[test]
fn render_nested_types() {
    let inner = TypeReference::Vec(VecType { size: VecDimensionality::Three, inner: f32_type() });
    let array = TypeReference::Array(ArrayType { inner: Box::new(inner), binding_array: false, size: ArraySize::Uint(8) });
    let atomic = TypeReference::Atomic(AtomicType { inner: Box::new(array) });
    assert_eq!(atomic.to_string(), "atomic<array<vec3<f32>, 8u>>");
}

#[test]
fn decimal_numbers() {
    assert_eq!(unsigned_to_string(0), "0");
    assert_eq!(unsigned_to_string(7), "7");
    assert_eq!(unsigned_to_string(10), "10");
    assert_eq!(unsigned_to_string(1234567890), "1234567890");
    assert_eq!(unsigned_to_string(u64::MAX), u64::MAX.to_string());
    let mut text = String::from("x=");
    push_unsigned(&mut text, 905);
    push_signed(&mut text, -41);
    push_signed(&mut text, 0);
    push_signed(&mut text, i64::MAX);
    assert_eq!(text, "x=905-410".to_string() + &i64::MAX.to_string());
}
