use std::cell::RefCell;
use wgsl_sema::layout::{
    components, find_struct, round_up_bytes, struct_layout, struct_member_layout, Field,
    FieldLayout, LayoutAddressSpace, StructData, Visit,
};
use wgsl_sema::type_ref::{
    AccessMode, ArraySize, ArrayType, AtomicType, MatrixType, PointerType, SamplerType,
    ScalarType, StorageClass, TypeReference, VecDimensionality, VecType,
};

fn f32_type() -> TypeReference {
    TypeReference::Scalar(ScalarType::Float32)
}

fn vector(size: VecDimensionality) -> TypeReference {
    TypeReference::Vec(VecType { size, inner: Box::new(f32_type()) })
}

fn matrix(columns: VecDimensionality, rows: VecDimensionality) -> TypeReference {
    TypeReference::Matrix(MatrixType { columns, rows, inner: Box::new(f32_type()) })
}

fn array(inner: TypeReference, size: ArraySize) -> TypeReference {
    TypeReference::Array(ArrayType { inner: Box::new(inner), binding_array: false, size })
}

fn field(name: &str, ty: TypeReference) -> Field {
    Field { name: name.to_string(), ty }
}

fn layout(offset: u32, align: u32, size: u32) -> FieldLayout {
    FieldLayout { offset, align, size }
}

fn all_layouts(fields: &Vec<Field>, table: &Vec<StructData>, space: LayoutAddressSpace) -> Vec<FieldLayout> {
    struct_member_layout(fields, table, space, |_, _| Visit::Continue)
}

#[test]
fn two_floats_in_storage() {
    let fields = vec![field("a", f32_type()), field("b", f32_type())];
    let calls = RefCell::new(Vec::new());
    let visited = struct_member_layout(&fields, &vec![], LayoutAddressSpace::Storage, |index, layout| {
        calls.borrow_mut().push((index, layout));
        Visit::Continue
    });
    assert_eq!(calls.into_inner(), vec![(0, layout(0, 4, 4)), (1, layout(4, 4, 4))]);
    assert_eq!(visited, vec![layout(0, 4, 4), layout(4, 4, 4)]);
}

#[test]
fn stop_after_the_first_field() {
    for count in 1..6 {
        let fields: Vec<Field> = (0..count).map(|_| field("f", f32_type())).collect();
        let calls = RefCell::new(0);
        let visited = struct_member_layout(&fields, &vec![], LayoutAddressSpace::Storage, |_, _| {
            *calls.borrow_mut() += 1;
            Visit::Stop
        });
        assert_eq!(calls.into_inner(), 1);
        assert_eq!(visited, vec![layout(0, 4, 4)]);
    }
}

#[test]
fn stop_in_the_middle() {
    let fields = vec![field("a", f32_type()), field("b", vector(VecDimensionality::Two)), field("c", f32_type())];
    let visited = struct_member_layout(&fields, &vec![], LayoutAddressSpace::Storage, |index, _| {
        if index == 1 {
            Visit::Stop
        } else {
            Visit::Continue
        }
    });
    assert_eq!(visited, vec![layout(0, 4, 4), layout(8, 8, 8)]);
}

#[test]
fn no_fields_none_visited() {
    let calls = RefCell::new(0);
    let visited = struct_member_layout(&vec![], &vec![], LayoutAddressSpace::Uniform, |_, _| {
        *calls.borrow_mut() += 1;
        Visit::Continue
    });
    assert_eq!(visited, vec![]);
    assert_eq!(calls.into_inner(), 0);
    assert_eq!(struct_layout(&vec![], &vec![], LayoutAddressSpace::Storage), Some((1, 0)));
}

#[test]
fn scalars_take_four_bytes() {
    let storage = LayoutAddressSpace::Storage;
    for scalar in [ScalarType::Bool, ScalarType::Float32, ScalarType::Int32, ScalarType::Uint32] {
        assert_eq!(TypeReference::Scalar(scalar).align_and_size(&vec![], storage), Some((4, 4)));
    }
    let atomic = TypeReference::Atomic(AtomicType { inner: Box::new(TypeReference::Scalar(ScalarType::Uint32)) });
    assert_eq!(atomic.align_and_size(&vec![], storage), Some((4, 4)));
}

#[test]
fn vectors() {
    let uniform = LayoutAddressSpace::Uniform;
    assert_eq!(vector(VecDimensionality::Two).align_and_size(&vec![], uniform), Some((8, 8)));
    assert_eq!(vector(VecDimensionality::Three).align_and_size(&vec![], uniform), Some((16, 12)));
    assert_eq!(vector(VecDimensionality::Four).align_and_size(&vec![], uniform), Some((16, 16)));
    assert_eq!(components(VecDimensionality::Two), 2);
    assert_eq!(components(VecDimensionality::Three), 3);
    assert_eq!(components(VecDimensionality::Four), 4);
}

#[test]
fn matrices_are_columns_one_after_the_other() {
    let storage = LayoutAddressSpace::Storage;
    let (two, three, four) = (VecDimensionality::Two, VecDimensionality::Three, VecDimensionality::Four);
    assert_eq!(matrix(two, two).align_and_size(&vec![], storage), Some((8, 16)));
    assert_eq!(matrix(three, two).align_and_size(&vec![], storage), Some((8, 24)));
    assert_eq!(matrix(four, two).align_and_size(&vec![], storage), Some((8, 32)));
    assert_eq!(matrix(two, three).align_and_size(&vec![], storage), Some((16, 24)));
    assert_eq!(matrix(three, three).align_and_size(&vec![], storage), Some((16, 36)));
    assert_eq!(matrix(two, four).align_and_size(&vec![], storage), Some((16, 32)));
    assert_eq!(matrix(four, four).align_and_size(&vec![], storage), Some((16, 64)));
}

#[test]
fn a_vector_of_three_is_aligned_beyond_its_size() {
    let fields = vec![
        field("a", f32_type()),
        field("b", vector(VecDimensionality::Three)),
        field("c", f32_type()),
        field("d", vector(VecDimensionality::Three)),
    ];
    assert_eq!(
        all_layouts(&fields, &vec![], LayoutAddressSpace::Storage),
        vec![layout(0, 4, 4), layout(16, 16, 12), layout(28, 4, 4), layout(32, 16, 12)]
    );
    assert_eq!(struct_layout(&fields, &vec![], LayoutAddressSpace::Storage), Some((16, 48)));
}

#[test]
fn array_stride_depends_on_the_address_space() {
    let floats = array(f32_type(), ArraySize::Uint(3));
    assert_eq!(floats.align_and_size(&vec![], LayoutAddressSpace::Storage), Some((4, 12)));
    assert_eq!(floats.align_and_size(&vec![], LayoutAddressSpace::Uniform), Some((4, 48)));
    let vectors = array(vector(VecDimensionality::Three), ArraySize::Int(2));
    assert_eq!(vectors.align_and_size(&vec![], LayoutAddressSpace::Storage), Some((16, 32)));
    assert_eq!(vectors.align_and_size(&vec![], LayoutAddressSpace::Uniform), Some((16, 32)));
    let empty = array(f32_type(), ArraySize::Int(0));
    assert_eq!(empty.align_and_size(&vec![], LayoutAddressSpace::Uniform), Some((4, 0)));
}

#[test]
fn an_array_without_a_literal_length_is_one_element() {
    let dynamic = array(vector(VecDimensionality::Three), ArraySize::Dynamic);
    assert_eq!(dynamic.align_and_size(&vec![], LayoutAddressSpace::Storage), Some((16, 16)));
    let named = array(f32_type(), ArraySize::Path("COUNT".to_string()));
    assert_eq!(named.align_and_size(&vec![], LayoutAddressSpace::Storage), Some((4, 4)));
    assert_eq!(named.align_and_size(&vec![], LayoutAddressSpace::Uniform), Some((4, 16)));
    let fields = vec![field("count", f32_type()), field("items", dynamic)];
    assert_eq!(
        all_layouts(&fields, &vec![], LayoutAddressSpace::Storage),
        vec![layout(0, 4, 4), layout(16, 16, 16)]
    );
}

#[test]
fn types_without_a_layout() {
    let storage = LayoutAddressSpace::Storage;
    assert_eq!(TypeReference::Error.align_and_size(&vec![], storage), None);
    assert_eq!(TypeReference::Sampler(SamplerType { comparison: false }).align_and_size(&vec![], storage), None);
    assert_eq!(TypeReference::Path("Missing".to_string()).align_and_size(&vec![], storage), None);
    let pointer = TypeReference::Pointer(PointerType {
        storage_class: StorageClass::Function,
        access_mode: AccessMode::ReadWrite,
        inner: Box::new(f32_type()),
    });
    assert_eq!(pointer.align_and_size(&vec![], storage), None);
    assert_eq!(array(TypeReference::Error, ArraySize::Uint(2)).align_and_size(&vec![], storage), None);
    assert_eq!(array(f32_type(), ArraySize::Int(-1)).align_and_size(&vec![], storage), None);
}

#[test]
fn a_size_beyond_the_limit_is_no_layout() {
    let storage = LayoutAddressSpace::Storage;
    assert_eq!(array(f32_type(), ArraySize::Uint(0x3fff_ffff)).align_and_size(&vec![], storage), Some((4, 0xffff_fffc)));
    assert_eq!(array(f32_type(), ArraySize::Uint(0x4000_0000)).align_and_size(&vec![], storage), None);
    assert_eq!(array(f32_type(), ArraySize::Uint(u64::MAX)).align_and_size(&vec![], storage), None);
    assert_eq!(array(f32_type(), ArraySize::Int(i64::MAX)).align_and_size(&vec![], storage), None);
    let fields = vec![
        field("a", array(f32_type(), ArraySize::Uint(0x3fff_ffff))),
        field("b", f32_type()),
    ];
    assert_eq!(all_layouts(&fields, &vec![], storage), vec![layout(0, 4, 0xffff_fffc)]);
    assert_eq!(struct_layout(&fields, &vec![], storage), None);
}

#[test]
fn the_pass_ends_before_a_field_without_a_layout() {
    let fields = vec![
        field("a", f32_type()),
        field("b", TypeReference::Sampler(SamplerType { comparison: true })),
        field("c", f32_type()),
    ];
    assert_eq!(all_layouts(&fields, &vec![], LayoutAddressSpace::Storage), vec![layout(0, 4, 4)]);
    assert_eq!(struct_layout(&fields, &vec![], LayoutAddressSpace::Storage), None);
}

fn light_table() -> Vec<StructData> {
    vec![
        StructData {
            name: "Light".to_string(),
            fields: vec![field("position", vector(VecDimensionality::Three)), field("power", f32_type())],
        },
        StructData {
            name: "Small".to_string(),
            fields: vec![field("x", f32_type())],
        },
        StructData {
            name: "Scene".to_string(),
            fields: vec![
                field("count", TypeReference::Scalar(ScalarType::Uint32)),
                field("lights", array(TypeReference::Path("Light".to_string()), ArraySize::Uint(4))),
            ],
        },
    ]
}

#[test]
fn structs_are_found_by_name() {
    let table = light_table();
    assert_eq!(find_struct(&table, &"Light".to_string()), Some(0));
    assert_eq!(find_struct(&table, &"Scene".to_string()), Some(2));
    assert_eq!(find_struct(&table, &"light".to_string()), None);
    assert_eq!(find_struct(&vec![], &"Light".to_string()), None);
}

#[test]
fn the_same_struct_under_two_address_spaces() {
    let table = light_table();
    let small = TypeReference::Path("Small".to_string());
    assert_eq!(small.align_and_size(&table, LayoutAddressSpace::Storage), Some((4, 4)));
    assert_eq!(small.align_and_size(&table, LayoutAddressSpace::Uniform), Some((4, 16)));
    let smalls = array(TypeReference::Path("Small".to_string()), ArraySize::Uint(3));
    assert_eq!(smalls.align_and_size(&table, LayoutAddressSpace::Storage), Some((4, 12)));
    assert_eq!(smalls.align_and_size(&table, LayoutAddressSpace::Uniform), Some((4, 48)));
    let fields = vec![field("a", TypeReference::Path("Small".to_string())), field("b", f32_type())];
    assert_eq!(all_layouts(&fields, &table, LayoutAddressSpace::Storage), vec![layout(0, 4, 4), layout(4, 4, 4)]);
    assert_eq!(all_layouts(&fields, &table, LayoutAddressSpace::Uniform), vec![layout(0, 4, 16), layout(16, 4, 4)]);
    assert_eq!(struct_layout(&fields, &table, LayoutAddressSpace::Storage), Some((4, 8)));
    assert_eq!(struct_layout(&fields, &table, LayoutAddressSpace::Uniform), Some((4, 32)));
}

#[test]
fn nested_structs() {
    let table = light_table();
    let light = TypeReference::Path("Light".to_string());
    assert_eq!(light.align_and_size(&table, LayoutAddressSpace::Storage), Some((16, 16)));
    let scene = TypeReference::Path("Scene".to_string());
    assert_eq!(scene.align_and_size(&table, LayoutAddressSpace::Storage), Some((16, 80)));
    assert_eq!(
        all_layouts(&table[2].fields, &table, LayoutAddressSpace::Storage),
        vec![layout(0, 4, 4), layout(16, 16, 64)]
    );
}

#[test]
fn a_struct_that_holds_itself_has_no_layout() {
    let table = vec![
        StructData { name: "A".to_string(), fields: vec![field("b", TypeReference::Path("B".to_string()))] },
        StructData { name: "B".to_string(), fields: vec![field("a", TypeReference::Path("A".to_string()))] },
    ];
    let a = TypeReference::Path("A".to_string());
    assert_eq!(a.align_and_size(&table, LayoutAddressSpace::Storage), None);
    assert_eq!(all_layouts(&table[0].fields, &table, LayoutAddressSpace::Storage), vec![]);
}

#[test]
fn a_chain_as_long_as_the_table_is_followed() {
    let table = vec![
        StructData { name: "C".to_string(), fields: vec![field("b", TypeReference::Path("B".to_string()))] },
        StructData { name: "B".to_string(), fields: vec![field("a", TypeReference::Path("A".to_string()))] },
        StructData { name: "A".to_string(), fields: vec![field("x", vector(VecDimensionality::Two))] },
    ];
    let c = TypeReference::Path("C".to_string());
    assert_eq!(c.align_and_size(&table, LayoutAddressSpace::Storage), Some((8, 8)));
    assert_eq!(c.align_and_size(&table, LayoutAddressSpace::Uniform), Some((8, 16)));
}

#[test]
fn rounding_up() {
    assert_eq!(round_up_bytes(0, 4), Some(0));
    assert_eq!(round_up_bytes(1, 4), Some(4));
    assert_eq!(round_up_bytes(4, 4), Some(4));
    assert_eq!(round_up_bytes(12, 16), Some(16));
    assert_eq!(round_up_bytes(17, 16), Some(32));
    assert_eq!(round_up_bytes(9, 1), Some(9));
    assert_eq!(round_up_bytes(9, 0), Some(9));
    assert_eq!(round_up_bytes(u32::MAX, 1), Some(u32::MAX));
    assert_eq!(round_up_bytes(u32::MAX, 16), None);
    assert_eq!(round_up_bytes(u32::MAX - 15, 16), Some(u32::MAX - 15));
}
