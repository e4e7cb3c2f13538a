//! Lowering: from a type as written to the canonical type model.
//!
//! Lowering either yields the whole type or fails; it never yields a type with
//! a part missing. There is one kind of failure, for every cause.

use vstd::prelude::*;
use vstd::std_specs::convert::FromSpecImpl;
use crate::syntax::{
    AccessModeKeyword, GenericArg, Literal, MatrixKeyword, SamplerKeyword, ScalarKeyword,
    StorageClassKeyword, TextureKeyword, TypeSyntax, VecKeyword, first_type_generic, generic_at,
    spec_first_type_generic, spec_generic_at,
};
use crate::type_ref::{
    AccessMode, ArraySize, ArrayType, AtomicType, MatrixType, PointerType, SamplerType,
    ScalarType, StorageClass, TextureDimension, TextureKind, TextureType, TypeReference,
    VecDimensionality, VecType,
};

verus! {

/// The type as written cannot be lowered: a part that the type needs is
/// absent or of the wrong kind.
#[derive(Debug, Clone, Copy, PartialEq, Eq, Structural)]
pub struct LoweringFailure;

/// What a lowering returns, given the type it specifies, if any.
pub open spec fn outcome<T>(lowered: Option<T>) -> Result<T, LoweringFailure> {
    match lowered {
        Some(ty) => Ok(ty),
        None => Err(LoweringFailure),
    }
}

/// The scalar type that a keyword names.
pub open spec fn scalar_of(keyword: ScalarKeyword) -> ScalarType {
    match keyword {
        ScalarKeyword::Bool => ScalarType::Bool,
        ScalarKeyword::Float32 => ScalarType::Float32,
        ScalarKeyword::Int32 => ScalarType::Int32,
        ScalarKeyword::Uint32 => ScalarType::Uint32,
    }
}

impl From<ScalarKeyword> for ScalarType {
    fn from(keyword: ScalarKeyword) -> (scalar: ScalarType) {
        match keyword {
            ScalarKeyword::Bool => ScalarType::Bool,
            ScalarKeyword::Float32 => ScalarType::Float32,
            ScalarKeyword::Int32 => ScalarType::Int32,
            ScalarKeyword::Uint32 => ScalarType::Uint32,
        }
    }
}

impl FromSpecImpl<ScalarKeyword> for ScalarType {
    open spec fn obeys_from_spec() -> bool {
        true
    }

    open spec fn from_spec(keyword: ScalarKeyword) -> ScalarType {
        scalar_of(keyword)
    }
}

/// The access mode that a keyword names.
pub open spec fn access_mode_of(keyword: AccessModeKeyword) -> AccessMode {
    match keyword {
        AccessModeKeyword::Read => AccessMode::Read,
        AccessModeKeyword::Write => AccessMode::Write,
        AccessModeKeyword::ReadWrite => AccessMode::ReadWrite,
    }
}

impl From<AccessModeKeyword> for AccessMode {
    fn from(keyword: AccessModeKeyword) -> (mode: AccessMode) {
        match keyword {
            AccessModeKeyword::Read => AccessMode::Read,
            AccessModeKeyword::Write => AccessMode::Write,
            AccessModeKeyword::ReadWrite => AccessMode::ReadWrite,
        }
    }
}

impl FromSpecImpl<AccessModeKeyword> for AccessMode {
    open spec fn obeys_from_spec() -> bool {
        true
    }

    open spec fn from_spec(keyword: AccessModeKeyword) -> AccessMode {
        access_mode_of(keyword)
    }
}

/// The address space that a keyword names.
pub open spec fn storage_class_of(keyword: StorageClassKeyword) -> StorageClass {
    match keyword {
        StorageClassKeyword::Function => StorageClass::Function,
        StorageClassKeyword::Private => StorageClass::Private,
        StorageClassKeyword::Workgroup => StorageClass::Workgroup,
        StorageClassKeyword::Uniform => StorageClass::Uniform,
        StorageClassKeyword::Storage => StorageClass::Storage,
        StorageClassKeyword::PushConstant => StorageClass::PushConstant,
    }
}

impl From<StorageClassKeyword> for StorageClass {
    fn from(keyword: StorageClassKeyword) -> (class: StorageClass) {
        match keyword {
            StorageClassKeyword::Function => StorageClass::Function,
            StorageClassKeyword::Private => StorageClass::Private,
            StorageClassKeyword::Workgroup => StorageClass::Workgroup,
            StorageClassKeyword::Uniform => StorageClass::Uniform,
            StorageClassKeyword::Storage => StorageClass::Storage,
            StorageClassKeyword::PushConstant => StorageClass::PushConstant,
        }
    }
}

impl FromSpecImpl<StorageClassKeyword> for StorageClass {
    open spec fn obeys_from_spec() -> bool {
        true
    }

    open spec fn from_spec(keyword: StorageClassKeyword) -> StorageClass {
        storage_class_of(keyword)
    }
}

/// The sampler type that a keyword names.
pub open spec fn sampler_of(keyword: SamplerKeyword) -> SamplerType {
    SamplerType { comparison: keyword == SamplerKeyword::SamplerComparison }
}

impl From<SamplerKeyword> for SamplerType {
    fn from(keyword: SamplerKeyword) -> (sampler: SamplerType) {
        match keyword {
            SamplerKeyword::Sampler => SamplerType { comparison: false },
            SamplerKeyword::SamplerComparison => SamplerType { comparison: true },
        }
    }
}

impl FromSpecImpl<SamplerKeyword> for SamplerType {
    open spec fn obeys_from_spec() -> bool {
        true
    }

    open spec fn from_spec(keyword: SamplerKeyword) -> SamplerType {
        sampler_of(keyword)
    }
}

/// The number of components that a vector keyword fixes.
pub open spec fn spec_vector_dimensions(keyword: VecKeyword) -> VecDimensionality {
    match keyword {
        VecKeyword::Vec2 => VecDimensionality::Two,
        VecKeyword::Vec3 => VecDimensionality::Three,
        VecKeyword::Vec4 => VecDimensionality::Four,
    }
}

#[verifier::when_used_as_spec(spec_vector_dimensions)]
pub fn vector_dimensions(keyword: VecKeyword) -> (size: VecDimensionality)
    ensures
        size == spec_vector_dimensions(keyword),
{
    match keyword {
        VecKeyword::Vec2 => VecDimensionality::Two,
        VecKeyword::Vec3 => VecDimensionality::Three,
        VecKeyword::Vec4 => VecDimensionality::Four,
    }
}

/// The columns and rows, in this order, that a matrix keyword fixes.
pub open spec fn spec_matrix_dimensions(keyword: MatrixKeyword) -> (
    VecDimensionality,
    VecDimensionality,
) {
    match keyword {
        MatrixKeyword::Mat2x2 => (VecDimensionality::Two, VecDimensionality::Two),
        MatrixKeyword::Mat2x3 => (VecDimensionality::Two, VecDimensionality::Three),
        MatrixKeyword::Mat2x4 => (VecDimensionality::Two, VecDimensionality::Four),
        MatrixKeyword::Mat3x2 => (VecDimensionality::Three, VecDimensionality::Two),
        MatrixKeyword::Mat3x3 => (VecDimensionality::Three, VecDimensionality::Three),
        MatrixKeyword::Mat3x4 => (VecDimensionality::Three, VecDimensionality::Four),
        MatrixKeyword::Mat4x2 => (VecDimensionality::Four, VecDimensionality::Two),
        MatrixKeyword::Mat4x3 => (VecDimensionality::Four, VecDimensionality::Three),
        MatrixKeyword::Mat4x4 => (VecDimensionality::Four, VecDimensionality::Four),
    }
}

#[verifier::when_used_as_spec(spec_matrix_dimensions)]
pub fn matrix_dimensions(keyword: MatrixKeyword) -> (dimensions: (
    VecDimensionality,
    VecDimensionality,
))
    ensures
        dimensions == spec_matrix_dimensions(keyword),
{
    match keyword {
        MatrixKeyword::Mat2x2 => (VecDimensionality::Two, VecDimensionality::Two),
        MatrixKeyword::Mat2x3 => (VecDimensionality::Two, VecDimensionality::Three),
        MatrixKeyword::Mat2x4 => (VecDimensionality::Two, VecDimensionality::Four),
        MatrixKeyword::Mat3x2 => (VecDimensionality::Three, VecDimensionality::Two),
        MatrixKeyword::Mat3x3 => (VecDimensionality::Three, VecDimensionality::Three),
        MatrixKeyword::Mat3x4 => (VecDimensionality::Three, VecDimensionality::Four),
        MatrixKeyword::Mat4x2 => (VecDimensionality::Four, VecDimensionality::Two),
        MatrixKeyword::Mat4x3 => (VecDimensionality::Four, VecDimensionality::Three),
        MatrixKeyword::Mat4x4 => (VecDimensionality::Four, VecDimensionality::Four),
    }
}

/// Which of the four kinds of texture a keyword names.
#[derive(Debug, Clone, Copy, PartialEq, Eq, Structural)]
pub enum TextureKindVariant {
    Sampled,
    Storage,
    Depth,
    External,
}

/// What a texture keyword fixes: the kind, the dimension, whether the texture
/// is arrayed, and whether it is multisampled.
#[derive(Debug, Clone, Copy, PartialEq, Eq, Structural)]
pub struct TextureShape {
    pub kind: TextureKindVariant,
    pub dimension: TextureDimension,
    pub arrayed: bool,
    pub multisampled: bool,
}

pub open spec fn spec_texture_shape(keyword: TextureKeyword) -> TextureShape {
    match keyword {
        TextureKeyword::Texture1d => TextureShape {
            kind: TextureKindVariant::Sampled,
            dimension: TextureDimension::D1,
            arrayed: false,
            multisampled: false,
        },
        TextureKeyword::Texture2d => TextureShape {
            kind: TextureKindVariant::Sampled,
            dimension: TextureDimension::D2,
            arrayed: false,
            multisampled: false,
        },
        TextureKeyword::Texture2dArray => TextureShape {
            kind: TextureKindVariant::Sampled,
            dimension: TextureDimension::D2,
            arrayed: true,
            multisampled: false,
        },
        TextureKeyword::Texture3d => TextureShape {
            kind: TextureKindVariant::Sampled,
            dimension: TextureDimension::D3,
            arrayed: false,
            multisampled: false,
        },
        TextureKeyword::TextureCube => TextureShape {
            kind: TextureKindVariant::Sampled,
            dimension: TextureDimension::Cube,
            arrayed: false,
            multisampled: false,
        },
        TextureKeyword::TextureCubeArray => TextureShape {
            kind: TextureKindVariant::Sampled,
            dimension: TextureDimension::Cube,
            arrayed: true,
            multisampled: false,
        },
        TextureKeyword::TextureMultisampled2d => TextureShape {
            kind: TextureKindVariant::Sampled,
            dimension: TextureDimension::D2,
            arrayed: false,
            multisampled: true,
        },
        TextureKeyword::TextureExternal => TextureShape {
            kind: TextureKindVariant::External,
            dimension: TextureDimension::D1,
            arrayed: false,
            multisampled: false,
        },
        TextureKeyword::TextureStorage1d => TextureShape {
            kind: TextureKindVariant::Storage,
            dimension: TextureDimension::D1,
            arrayed: false,
            multisampled: false,
        },
        TextureKeyword::TextureStorage2d => TextureShape {
            kind: TextureKindVariant::Storage,
            dimension: TextureDimension::D2,
            arrayed: false,
            multisampled: false,
        },
        TextureKeyword::TextureStorage2dArray => TextureShape {
            kind: TextureKindVariant::Storage,
            dimension: TextureDimension::D2,
            arrayed: true,
            multisampled: false,
        },
        TextureKeyword::TextureStorage3d => TextureShape {
            kind: TextureKindVariant::Storage,
            dimension: TextureDimension::D3,
            arrayed: false,
            multisampled: false,
        },
        TextureKeyword::TextureDepth2d => TextureShape {
            kind: TextureKindVariant::Depth,
            dimension: TextureDimension::D2,
            arrayed: false,
            multisampled: false,
        },
        TextureKeyword::TextureDepth2dArray => TextureShape {
            kind: TextureKindVariant::Depth,
            dimension: TextureDimension::D2,
            arrayed: true,
            multisampled: false,
        },
        TextureKeyword::TextureDepthCube => TextureShape {
            kind: TextureKindVariant::Depth,
            dimension: TextureDimension::Cube,
            arrayed: false,
            multisampled: false,
        },
        TextureKeyword::TextureDepthCubeArray => TextureShape {
            kind: TextureKindVariant::Depth,
            dimension: TextureDimension::Cube,
            arrayed: true,
            multisampled: false,
        },
        TextureKeyword::TextureDepthMultisampled2d => TextureShape {
            kind: TextureKindVariant::Depth,
            dimension: TextureDimension::D2,
            arrayed: false,
            multisampled: true,
        },
    }
}

#[verifier::when_used_as_spec(spec_texture_shape)]
pub fn texture_shape(keyword: TextureKeyword) -> (shape: TextureShape)
    ensures
        shape == spec_texture_shape(keyword),
{
    let (kind, dimension, arrayed, multisampled) = match keyword {
        TextureKeyword::Texture1d => (TextureKindVariant::Sampled, TextureDimension::D1, false, false),
        TextureKeyword::Texture2d => (TextureKindVariant::Sampled, TextureDimension::D2, false, false),
        TextureKeyword::Texture2dArray => (TextureKindVariant::Sampled, TextureDimension::D2, true, false),
        TextureKeyword::Texture3d => (TextureKindVariant::Sampled, TextureDimension::D3, false, false),
        TextureKeyword::TextureCube => (TextureKindVariant::Sampled, TextureDimension::Cube, false, false),
        TextureKeyword::TextureCubeArray => (TextureKindVariant::Sampled, TextureDimension::Cube, true, false),
        TextureKeyword::TextureMultisampled2d => (TextureKindVariant::Sampled, TextureDimension::D2, false, true),
        TextureKeyword::TextureExternal => (TextureKindVariant::External, TextureDimension::D1, false, false),
        TextureKeyword::TextureStorage1d => (TextureKindVariant::Storage, TextureDimension::D1, false, false),
        TextureKeyword::TextureStorage2d => (TextureKindVariant::Storage, TextureDimension::D2, false, false),
        TextureKeyword::TextureStorage2dArray => (TextureKindVariant::Storage, TextureDimension::D2, true, false),
        TextureKeyword::TextureStorage3d => (TextureKindVariant::Storage, TextureDimension::D3, false, false),
        TextureKeyword::TextureDepth2d => (TextureKindVariant::Depth, TextureDimension::D2, false, false),
        TextureKeyword::TextureDepth2dArray => (TextureKindVariant::Depth, TextureDimension::D2, true, false),
        TextureKeyword::TextureDepthCube => (TextureKindVariant::Depth, TextureDimension::Cube, false, false),
        TextureKeyword::TextureDepthCubeArray => (TextureKindVariant::Depth, TextureDimension::Cube, true, false),
        TextureKeyword::TextureDepthMultisampled2d => (TextureKindVariant::Depth, TextureDimension::D2, false, true),
    };
    TextureShape { kind, dimension, arrayed, multisampled }
}

/// The size of an array, read from the second generic argument. `None` where
/// the argument is there but is neither an integer literal nor a name.
pub open spec fn spec_array_size(second: Option<GenericArg>) -> Option<ArraySize> {
    match second {
        None => Some(ArraySize::Dynamic),
        Some(GenericArg::Type(ty)) => match ty.spec_as_name() {
            Some(name) => Some(ArraySize::Path(name)),
            None => None,
        },
        Some(GenericArg::Literal(Literal::Int(value))) => Some(ArraySize::Int(value)),
        Some(GenericArg::Literal(Literal::Uint(value))) => Some(ArraySize::Uint(value)),
        Some(_) => None,
    }
}

/// The access mode of a pointer into `class`, read from the third generic
/// argument. `None` where the argument is there but is no access mode.
pub open spec fn spec_pointer_access_mode(class: StorageClass, third: Option<GenericArg>) -> Option<
    AccessMode,
> {
    match third {
        None => Some(class.spec_default_access_mode()),
        Some(GenericArg::AccessMode(keyword)) => Some(access_mode_of(keyword)),
        Some(_) => None,
    }
}

/// The texel format and access mode of a storage texture, read from the first
/// two generic arguments.
pub open spec fn spec_storage_texture_kind(generics: Option<Vec<GenericArg>>) -> Option<
    TextureKind,
> {
    match (spec_first_type_generic(generics), spec_generic_at(generics, 1)) {
        (Some(format), Some(GenericArg::AccessMode(keyword))) => match format.spec_as_name() {
            Some(name) => Some(TextureKind::Storage(name, access_mode_of(keyword))),
            None => None,
        },
        _ => None,
    }
}

impl TypeReference {
    /// The canonical type that `ty` lowers to, or `None` where it cannot be
    /// lowered.
    pub open spec fn lowered(ty: TypeSyntax) -> Option<TypeReference>
        decreases ty, 0nat,
    {
        match ty {
            TypeSyntax::Path(Some(name)) => Some(TypeReference::Path(name)),
            TypeSyntax::Path(None) => None,
            TypeSyntax::Scalar(keyword) => Some(TypeReference::Scalar(scalar_of(keyword))),
            TypeSyntax::Vec(keyword, generics) => match Self::lowered_inner(generics) {
                Some(inner) => Some(
                    TypeReference::Vec(
                        VecType { size: spec_vector_dimensions(keyword), inner: Box::new(inner) },
                    ),
                ),
                None => None,
            },
            TypeSyntax::Matrix(keyword, generics) => match Self::lowered_inner(generics) {
                Some(inner) => Some(
                    TypeReference::Matrix(
                        MatrixType {
                            columns: spec_matrix_dimensions(keyword).0,
                            rows: spec_matrix_dimensions(keyword).1,
                            inner: Box::new(inner),
                        },
                    ),
                ),
                None => None,
            },
            TypeSyntax::Texture(keyword, generics) => {
                let shape = spec_texture_shape(keyword);
                let kind = match shape.kind {
                    TextureKindVariant::Sampled => match Self::lowered_inner(generics) {
                        Some(inner) => Some(TextureKind::Sampled(Box::new(inner))),
                        None => None,
                    },
                    TextureKindVariant::Storage => spec_storage_texture_kind(generics),
                    TextureKindVariant::Depth => Some(TextureKind::Depth),
                    TextureKindVariant::External => Some(TextureKind::External),
                };
                match kind {
                    Some(kind) => Some(
                        TypeReference::Texture(
                            TextureType {
                                dimension: shape.dimension,
                                arrayed: shape.arrayed,
                                multisampled: shape.multisampled,
                                kind,
                            },
                        ),
                    ),
                    None => None,
                }
            },
            TypeSyntax::Sampler(keyword) => Some(TypeReference::Sampler(sampler_of(keyword))),
            TypeSyntax::Atomic(generics) => match Self::lowered_inner(generics) {
                Some(inner) => Some(TypeReference::Atomic(AtomicType { inner: Box::new(inner) })),
                None => None,
            },
            TypeSyntax::Array(generics) => match (
                Self::lowered_inner(generics),
                spec_array_size(spec_generic_at(generics, 1)),
            ) {
                (Some(inner), Some(size)) => Some(
                    TypeReference::Array(
                        ArrayType { inner: Box::new(inner), binding_array: false, size },
                    ),
                ),
                _ => None,
            },
            TypeSyntax::BindingArray(generics) => match (
                Self::lowered_inner(generics),
                spec_array_size(spec_generic_at(generics, 1)),
            ) {
                (Some(inner), Some(size)) => Some(
                    TypeReference::Array(
                        ArrayType { inner: Box::new(inner), binding_array: true, size },
                    ),
                ),
                _ => None,
            },
            TypeSyntax::Pointer(generics) => match (
                spec_generic_at(generics, 0),
                spec_generic_at(generics, 1),
            ) {
                (Some(GenericArg::StorageClass(keyword)), Some(GenericArg::Type(inner))) => {
                    let storage_class = storage_class_of(keyword);
                    match (
                        spec_pointer_access_mode(storage_class, spec_generic_at(generics, 2)),
                        Self::lowered(inner),
                    ) {
                        (Some(access_mode), Some(inner)) => Some(
                            TypeReference::Pointer(
                                PointerType { storage_class, access_mode, inner: Box::new(inner) },
                            ),
                        ),
                        _ => None,
                    }
                },
                _ => None,
            },
        }
    }

    /// The lowering of the first generic argument, which must be a type.
    pub open spec fn lowered_inner(generics: Option<Vec<GenericArg>>) -> Option<TypeReference>
        decreases generics, 1nat,
    {
        match spec_first_type_generic(generics) {
            Some(inner) => Self::lowered(inner),
            None => None,
        }
    }
}

/// Reads the size of an array from its second generic argument.
pub fn array_size(second: Option<&GenericArg>) -> (size: Result<ArraySize, LoweringFailure>)
    ensures
        size == outcome(
            spec_array_size(
                match second {
                    Some(arg) => Some(*arg),
                    None => None,
                },
            ),
        ),
{
    match second {
        None => Ok(ArraySize::Dynamic),
        Some(GenericArg::Type(ty)) => match ty.as_name() {
            Some(name) => Ok(ArraySize::Path(name.clone())),
            None => Err(LoweringFailure),
        },
        Some(GenericArg::Literal(Literal::Int(value))) => Ok(ArraySize::Int(*value)),
        Some(GenericArg::Literal(Literal::Uint(value))) => Ok(ArraySize::Uint(*value)),
        Some(_) => Err(LoweringFailure),
    }
}

impl TypeReference {
    /// Lowers a type as written to the canonical type, or fails.
    pub fn lower(ty: &TypeSyntax) -> (lowered: Result<TypeReference, LoweringFailure>)
        ensures
            lowered == outcome(TypeReference::lowered(*ty)),
        decreases *ty, 0nat,
    {
        match ty {
            TypeSyntax::Path(name) => match name {
                Some(name) => Ok(TypeReference::Path(name.clone())),
                None => Err(LoweringFailure),
            },
            TypeSyntax::Scalar(keyword) => Ok(TypeReference::Scalar(ScalarType::from(*keyword))),
            TypeSyntax::Vec(keyword, generics) => match VecType::lower(*keyword, generics) {
                Ok(vec) => Ok(TypeReference::Vec(vec)),
                Err(failure) => Err(failure),
            },
            TypeSyntax::Matrix(keyword, generics) => match MatrixType::lower(*keyword, generics) {
                Ok(matrix) => Ok(TypeReference::Matrix(matrix)),
                Err(failure) => Err(failure),
            },
            TypeSyntax::Texture(keyword, generics) => match TextureType::lower(*keyword, generics) {
                Ok(texture) => Ok(TypeReference::Texture(texture)),
                Err(failure) => Err(failure),
            },
            TypeSyntax::Sampler(keyword) => Ok(TypeReference::Sampler(SamplerType::from(*keyword))),
            TypeSyntax::Atomic(generics) => match AtomicType::lower(generics) {
                Ok(atomic) => Ok(TypeReference::Atomic(atomic)),
                Err(failure) => Err(failure),
            },
            TypeSyntax::Array(generics) => match ArrayType::lower(generics, false) {
                Ok(array) => Ok(TypeReference::Array(array)),
                Err(failure) => Err(failure),
            },
            TypeSyntax::BindingArray(generics) => match ArrayType::lower(generics, true) {
                Ok(array) => Ok(TypeReference::Array(array)),
                Err(failure) => Err(failure),
            },
            TypeSyntax::Pointer(generics) => match PointerType::lower(generics) {
                Ok(pointer) => Ok(TypeReference::Pointer(pointer)),
                Err(failure) => Err(failure),
            },
        }
    }

    /// Lowers the first generic argument, which must be a type.
    pub fn lower_inner(generics: &Option<Vec<GenericArg>>) -> (lowered: Result<
        TypeReference,
        LoweringFailure,
    >)
        ensures
            lowered == outcome(TypeReference::lowered_inner(*generics)),
        decreases *generics, 1nat,
    {
        match first_type_generic(generics) {
            Some(inner) => TypeReference::lower(inner),
            None => Err(LoweringFailure),
        }
    }
}

impl VecType {
    /// Lowers a vector type from its keyword and generic arguments.
    pub fn lower(keyword: VecKeyword, generics: &Option<Vec<GenericArg>>) -> (lowered: Result<
        VecType,
        LoweringFailure,
    >)
        ensures
            TypeReference::lowered(TypeSyntax::Vec(keyword, *generics)) == match lowered {
                Ok(vec) => Some(TypeReference::Vec(vec)),
                Err(_) => None,
            },
        decreases *generics, 2nat,
    {
        let size = vector_dimensions(keyword);
        match TypeReference::lower_inner(generics) {
            Ok(inner) => Ok(VecType { size, inner: Box::new(inner) }),
            Err(failure) => Err(failure),
        }
    }
}

impl MatrixType {
    /// Lowers a matrix type from its keyword and generic arguments.
    pub fn lower(keyword: MatrixKeyword, generics: &Option<Vec<GenericArg>>) -> (lowered: Result<
        MatrixType,
        LoweringFailure,
    >)
        ensures
            TypeReference::lowered(TypeSyntax::Matrix(keyword, *generics)) == match lowered {
                Ok(matrix) => Some(TypeReference::Matrix(matrix)),
                Err(_) => None,
            },
        decreases *generics, 2nat,
    {
        let (columns, rows) = matrix_dimensions(keyword);
        match TypeReference::lower_inner(generics) {
            Ok(inner) => Ok(MatrixType { columns, rows, inner: Box::new(inner) }),
            Err(failure) => Err(failure),
        }
    }
}

impl TextureType {
    /// Lowers a texture type from its keyword and generic arguments.
    pub fn lower(keyword: TextureKeyword, generics: &Option<Vec<GenericArg>>) -> (lowered: Result<
        TextureType,
        LoweringFailure,
    >)
        ensures
            TypeReference::lowered(TypeSyntax::Texture(keyword, *generics)) == match lowered {
                Ok(texture) => Some(TypeReference::Texture(texture)),
                Err(_) => None,
            },
        decreases *generics, 2nat,
    {
        let shape = texture_shape(keyword);
        let kind = match shape.kind {
            TextureKindVariant::Sampled => match TypeReference::lower_inner(generics) {
                Ok(inner) => TextureKind::Sampled(Box::new(inner)),
                Err(failure) => {
                    return Err(failure);
                },
            },
            TextureKindVariant::Storage => {
                let texel_format = match first_type_generic(generics) {
                    Some(format) => match format.as_name() {
                        Some(name) => name.clone(),
                        None => {
                            return Err(LoweringFailure);
                        },
                    },
                    None => {
                        return Err(LoweringFailure);
                    },
                };
                let access_mode = match generic_at(generics, 1) {
                    Some(GenericArg::AccessMode(keyword)) => AccessMode::from(*keyword),
                    _ => {
                        return Err(LoweringFailure);
                    },
                };
                TextureKind::Storage(texel_format, access_mode)
            },
            TextureKindVariant::Depth => TextureKind::Depth,
            TextureKindVariant::External => TextureKind::External,
        };
        Ok(
            TextureType {
                dimension: shape.dimension,
                arrayed: shape.arrayed,
                multisampled: shape.multisampled,
                kind,
            },
        )
    }
}

impl AtomicType {
    /// Lowers an atomic type from its generic arguments.
    pub fn lower(generics: &Option<Vec<GenericArg>>) -> (lowered: Result<
        AtomicType,
        LoweringFailure,
    >)
        ensures
            TypeReference::lowered(TypeSyntax::Atomic(*generics)) == match lowered {
                Ok(atomic) => Some(TypeReference::Atomic(atomic)),
                Err(_) => None,
            },
        decreases *generics, 2nat,
    {
        match TypeReference::lower_inner(generics) {
            Ok(inner) => Ok(AtomicType { inner: Box::new(inner) }),
            Err(failure) => Err(failure),
        }
    }
}

impl ArrayType {
    /// Lowers an array type from its generic arguments; `binding_array` says
    /// which of the two spellings was used.
    pub fn lower(generics: &Option<Vec<GenericArg>>, binding_array: bool) -> (lowered: Result<
        ArrayType,
        LoweringFailure,
    >)
        ensures
            match lowered {
                Ok(array) => Some(TypeReference::Array(array)),
                Err(_) => None,
            } == if binding_array {
                TypeReference::lowered(TypeSyntax::BindingArray(*generics))
            } else {
                TypeReference::lowered(TypeSyntax::Array(*generics))
            },
        decreases *generics, 2nat,
    {
        if first_type_generic(generics).is_none() {
            return Err(LoweringFailure);
        }
        let size = match array_size(generic_at(generics, 1)) {
            Ok(size) => size,
            Err(failure) => {
                return Err(failure);
            },
        };
        match TypeReference::lower_inner(generics) {
            Ok(inner) => Ok(ArrayType { inner: Box::new(inner), binding_array, size }),
            Err(failure) => Err(failure),
        }
    }
}

impl PointerType {
    /// Lowers a pointer type from its generic arguments.
    pub fn lower(generics: &Option<Vec<GenericArg>>) -> (lowered: Result<
        PointerType,
        LoweringFailure,
    >)
        ensures
            TypeReference::lowered(TypeSyntax::Pointer(*generics)) == match lowered {
                Ok(pointer) => Some(TypeReference::Pointer(pointer)),
                Err(_) => None,
            },
        decreases *generics, 2nat,
    {
        let storage_class = match generic_at(generics, 0) {
            Some(GenericArg::StorageClass(keyword)) => StorageClass::from(*keyword),
            _ => {
                return Err(LoweringFailure);
            },
        };
        let inner = match generic_at(generics, 1) {
            Some(GenericArg::Type(inner)) => inner,
            _ => {
                return Err(LoweringFailure);
            },
        };
        let access_mode = match generic_at(generics, 2) {
            Some(GenericArg::AccessMode(keyword)) => AccessMode::from(*keyword),
            None => storage_class.default_access_mode(),
            Some(_) => {
                return Err(LoweringFailure);
            },
        };
        match TypeReference::lower(inner) {
            Ok(inner) => Ok(PointerType { storage_class, access_mode, inner: Box::new(inner) }),
            Err(failure) => Err(failure),
        }
    }
}

impl TextureType {
    /// Which of the four kinds of texture this is.
    pub open spec fn kind_variant(self) -> TextureKindVariant {
        match self.kind {
            TextureKind::Sampled(_) => TextureKindVariant::Sampled,
            TextureKind::Storage(_, _) => TextureKindVariant::Storage,
            TextureKind::Depth => TextureKindVariant::Depth,
            TextureKind::External => TextureKindVariant::External,
        }
    }

    /// Whether a keyword names a texture of this kind, dimension and flags.
    pub open spec fn has_keyword(self) -> bool {
        exists|keyword: TextureKeyword| #[trigger]
            spec_texture_shape(keyword) == (TextureShape {
                kind: self.kind_variant(),
                dimension: self.dimension,
                arrayed: self.arrayed,
                multisampled: self.multisampled,
            })
    }
}

impl TypeReference {
    /// Whether the type is one that the source can spell: no part of it is
    /// `Error`, no access mode in it is `Any`, no address space in it is
    /// `Handle`, and every texture in it has a keyword.
    pub open spec fn is_spelled(self) -> bool
        decreases self,
    {
        match self {
            TypeReference::Error => false,
            TypeReference::Scalar(_) | TypeReference::Sampler(_) | TypeReference::Path(_) => true,
            TypeReference::Vec(vec) => vec.inner.is_spelled(),
            TypeReference::Matrix(matrix) => matrix.inner.is_spelled(),
            TypeReference::Texture(texture) => texture.has_keyword() && match texture.kind {
                TextureKind::Sampled(inner) => inner.is_spelled(),
                TextureKind::Storage(_, mode) => mode != AccessMode::Any,
                TextureKind::Depth | TextureKind::External => true,
            },
            TypeReference::Atomic(atomic) => atomic.inner.is_spelled(),
            TypeReference::Array(array) => array.inner.is_spelled(),
            TypeReference::Pointer(pointer) => pointer.access_mode != AccessMode::Any
                && pointer.storage_class != StorageClass::Handle && pointer.inner.is_spelled(),
        }
    }
}

/// Lowering yields only types that the source can spell: never `Error`, the
/// access mode `Any` or the address space `Handle`, in no part of the type.
pub proof fn lemma_lowered_is_spelled(ty: TypeSyntax)
    ensures
        TypeReference::lowered(ty) matches Some(lowered) ==> lowered.is_spelled(),
    decreases ty,
{
    reveal_with_fuel(TypeReference::lowered, 2);
    reveal_with_fuel(TypeReference::lowered_inner, 2);
    match ty {
        TypeSyntax::Vec(_, generics) | TypeSyntax::Matrix(_, generics) | TypeSyntax::Atomic(
            generics,
        ) | TypeSyntax::Array(generics) | TypeSyntax::BindingArray(generics) => {
            if let Some(inner) = spec_first_type_generic(generics) {
                lemma_lowered_is_spelled(inner);
            }
        },
        TypeSyntax::Texture(keyword, generics) => {
            if let Some(inner) = spec_first_type_generic(generics) {
                lemma_lowered_is_spelled(inner);
            }
            if let Some(TypeReference::Texture(texture)) = TypeReference::lowered(ty) {
                assert(spec_texture_shape(keyword) == (TextureShape {
                    kind: texture.kind_variant(),
                    dimension: texture.dimension,
                    arrayed: texture.arrayed,
                    multisampled: texture.multisampled,
                }));
            }
        },
        TypeSyntax::Pointer(generics) => {
            if let Some(GenericArg::Type(inner)) = spec_generic_at(generics, 1) {
                lemma_lowered_is_spelled(inner);
            }
        },
        _ => {},
    }
}

/// A pointer that is written without an access mode has the default access
/// mode of its address space.
pub proof fn lemma_pointer_default_access_mode(generics: Option<Vec<GenericArg>>)
    requires
        spec_generic_at(generics, 2) is None,
    ensures
        TypeReference::lowered(TypeSyntax::Pointer(generics)) matches Some(
            TypeReference::Pointer(pointer),
        ) ==> pointer.access_mode == pointer.storage_class.spec_default_access_mode(),
{
}

/// The two spellings of an array lower to the same array, but for the flag
/// that tells them apart.
pub proof fn lemma_array_spellings_agree(generics: Option<Vec<GenericArg>>)
    ensures
        match (
            TypeReference::lowered(TypeSyntax::Array(generics)),
            TypeReference::lowered(TypeSyntax::BindingArray(generics)),
        ) {
            (Some(TypeReference::Array(array)), Some(TypeReference::Array(binding))) => {
                &&& !array.binding_array
                &&& binding.binding_array
                &&& array.inner == binding.inner
                &&& array.size == binding.size
            },
            (None, None) => true,
            _ => false,
        },
{
}

/// The arguments of a generic-argument list that holds exactly `count`
/// arguments.
pub open spec fn arguments_of(generics: Option<Vec<GenericArg>>, count: nat) -> Option<
    Seq<GenericArg>,
> {
    match generics {
        Some(list) => if list@.len() == count {
            Some(list@)
        } else {
            None
        },
        None => None,
    }
}

impl TypeReference {
    /// Whether `generics` holds one argument and no other, the type as it
    /// is spelled.
    pub open spec fn is_sole_argument_of(self, generics: Option<Vec<GenericArg>>) -> bool
        decreases self, 1nat,
    {
        arguments_of(generics, 1) matches Some(arguments) && arguments[0] matches GenericArg::Type(
            inner,
        ) && self.is_spelled_by(inner)
    }

    /// Whether `node` is the type as its canonical spelling writes it: the
    /// keyword of the spelling, followed by the generic arguments of the
    /// spelling and no others, each nested type again as it is spelled. A
    /// signed size is written as a signed literal and an unsigned size as
    /// an unsigned one; a pointer is written without its access mode, so
    /// only a pointer with the default access mode of its address space is
    /// written as it is spelled.
    pub open spec fn is_spelled_by(self, node: TypeSyntax) -> bool
        decreases self, 0nat,
    {
        match self {
            TypeReference::Error => false,
            TypeReference::Scalar(scalar) => node matches TypeSyntax::Scalar(keyword) && scalar_of(
                keyword,
            ) == scalar,
            TypeReference::Vec(vec) => {
                &&& node matches TypeSyntax::Vec(keyword, generics)
                &&& spec_vector_dimensions(keyword) == vec.size
                &&& vec.inner.is_sole_argument_of(generics)
            },
            TypeReference::Matrix(matrix) => {
                &&& node matches TypeSyntax::Matrix(keyword, generics)
                &&& spec_matrix_dimensions(keyword) == (matrix.columns, matrix.rows)
                &&& matrix.inner.is_sole_argument_of(generics)
            },
            TypeReference::Texture(texture) => {
                &&& node matches TypeSyntax::Texture(keyword, generics)
                &&& spec_texture_shape(keyword) == (TextureShape {
                    kind: texture.kind_variant(),
                    dimension: texture.dimension,
                    arrayed: texture.arrayed,
                    multisampled: texture.multisampled,
                })
                &&& match texture.kind {
                    TextureKind::Sampled(sampled) => sampled.is_sole_argument_of(generics),
                    TextureKind::Storage(format, mode) => {
                        &&& arguments_of(generics, 2) matches Some(arguments)
                        &&& arguments[0] == GenericArg::Type(TypeSyntax::Path(Some(format)))
                        &&& arguments[1] matches GenericArg::AccessMode(keyword)
                        &&& access_mode_of(keyword) == mode
                    },
                    TextureKind::Depth | TextureKind::External => generics is None,
                }
            },
            TypeReference::Sampler(sampler) => node matches TypeSyntax::Sampler(keyword)
                && sampler_of(keyword) == sampler,
            TypeReference::Atomic(atomic) => node matches TypeSyntax::Atomic(generics)
                && atomic.inner.is_sole_argument_of(generics),
            TypeReference::Array(array) => {
                &&& if array.binding_array {
                    node is BindingArray
                } else {
                    node is Array
                }
                &&& {
                    let generics = match node {
                        TypeSyntax::Array(generics) => generics,
                        TypeSyntax::BindingArray(generics) => generics,
                        _ => None,
                    };
                    match array.size {
                        ArraySize::Dynamic => array.inner.is_sole_argument_of(generics),
                        size => {
                            &&& arguments_of(generics, 2) matches Some(arguments)
                            &&& arguments[0] matches GenericArg::Type(inner)
                            &&& array.inner.is_spelled_by(inner)
                            &&& arguments[1] == match size {
                                ArraySize::Int(size) => GenericArg::Literal(Literal::Int(size)),
                                ArraySize::Uint(size) => GenericArg::Literal(Literal::Uint(size)),
                                ArraySize::Path(name) => GenericArg::Type(
                                    TypeSyntax::Path(Some(name)),
                                ),
                                ArraySize::Dynamic => arguments[0],
                            }
                        },
                    }
                }
            },
            TypeReference::Path(name) => node == TypeSyntax::Path(Some(name)),
            TypeReference::Pointer(pointer) => {
                &&& node matches TypeSyntax::Pointer(generics)
                &&& pointer.access_mode == pointer.storage_class.spec_default_access_mode()
                &&& arguments_of(generics, 2) matches Some(arguments)
                &&& arguments[0] matches GenericArg::StorageClass(keyword)
                &&& storage_class_of(keyword) == pointer.storage_class
                &&& arguments[1] matches GenericArg::Type(inner)
                &&& pointer.inner.is_spelled_by(inner)
            },
        }
    }
}

/// Lowering undoes the spelling: a type that is written as it is spelled
/// lowers to itself. Nothing of the type is lost in its spelling but the
/// access mode of a pointer, which the spelling leaves out.
pub proof fn lemma_lowering_undoes_spelling(ty: TypeReference, node: TypeSyntax)
    requires
        ty.is_spelled_by(node),
    ensures
        TypeReference::lowered(node) == Some(ty),
    decreases ty, 0nat,
{
    reveal_with_fuel(TypeReference::lowered, 2);
    reveal_with_fuel(TypeReference::lowered_inner, 2);
    reveal_with_fuel(TypeReference::is_spelled_by, 2);
    reveal_with_fuel(TypeReference::is_sole_argument_of, 2);
    match ty {
        TypeReference::Vec(vec) => {
            lemma_sole_argument_lowers(*vec.inner, node->Vec_1);
        },
        TypeReference::Matrix(matrix) => {
            lemma_sole_argument_lowers(*matrix.inner, node->Matrix_1);
        },
        TypeReference::Texture(texture) => {
            if let TextureKind::Sampled(sampled) = texture.kind {
                lemma_sole_argument_lowers(*sampled, node->Texture_1);
            }
        },
        TypeReference::Atomic(atomic) => {
            lemma_sole_argument_lowers(*atomic.inner, node->Atomic_0);
        },
        TypeReference::Array(array) => {
            let generics = match node {
                TypeSyntax::Array(generics) => generics,
                TypeSyntax::BindingArray(generics) => generics,
                _ => None,
            };
            if array.size is Dynamic {
                lemma_sole_argument_lowers(*array.inner, generics);
            } else {
                lemma_lowering_undoes_spelling(*array.inner, generics->0@[0]->Type_0);
            }
        },
        TypeReference::Pointer(pointer) => {
            lemma_lowering_undoes_spelling(*pointer.inner, node->Pointer_0->0@[1]->Type_0);
        },
        _ => {},
    }
}

/// A type that is the one argument of a list, written as it is spelled, is
/// what the first argument of the list lowers to.
pub proof fn lemma_sole_argument_lowers(ty: TypeReference, generics: Option<Vec<GenericArg>>)
    requires
        ty.is_sole_argument_of(generics),
    ensures
        TypeReference::lowered_inner(generics) == Some(ty),
        spec_generic_at(generics, 1) is None,
    decreases ty, 1nat,
{
    reveal_with_fuel(TypeReference::lowered_inner, 2);
    reveal_with_fuel(TypeReference::is_sole_argument_of, 2);
    lemma_lowering_undoes_spelling(ty, generics->0@[0]->Type_0);
}

} // verus!
