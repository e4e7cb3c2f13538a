//! The canonical type model.

use vstd::prelude::*;

verus! {

/// A type of the shading language in canonical form.
///
/// Every nested type is owned by the node that holds it, so a value is a
/// finite tree.
#[derive(Debug, PartialEq, Eq, Hash)]
pub enum TypeReference {
    /// Stands in for a type that could not be lowered.
    Error,
    Scalar(ScalarType),
    Vec(VecType),
    Matrix(MatrixType),
    Texture(TextureType),
    Sampler(SamplerType),
    Atomic(AtomicType),
    Array(ArrayType),
    /// A type referred to by name, such as a struct or an alias.
    Path(String),
    Pointer(PointerType),
}

#[derive(Debug, Clone, Copy, PartialEq, Eq, Hash, Structural)]
pub enum ScalarType {
    Bool,
    Float32,
    Int32,
    Uint32,
}

#[derive(Debug, PartialEq, Eq, Hash)]
pub struct VecType {
    pub size: VecDimensionality,
    pub inner: Box<TypeReference>,
}

/// The number of components of a vector, or of columns or rows of a matrix.
#[derive(Debug, Clone, Copy, PartialEq, Eq, Hash, Structural)]
pub enum VecDimensionality {
    Two,
    Three,
    Four,
}

#[derive(Debug, PartialEq, Eq, Hash)]
pub struct MatrixType {
    pub columns: VecDimensionality,
    pub rows: VecDimensionality,
    pub inner: Box<TypeReference>,
}

#[derive(Debug, PartialEq, Eq, Hash)]
pub struct TextureType {
    pub dimension: TextureDimension,
    pub arrayed: bool,
    pub multisampled: bool,
    pub kind: TextureKind,
}

#[derive(Debug, PartialEq, Eq, Hash)]
pub enum TextureKind {
    Sampled(Box<TypeReference>),
    /// The texel format as written, and the access mode.
    Storage(String, AccessMode),
    Depth,
    External,
}

#[derive(Debug, Clone, Copy, PartialEq, Eq, Hash, Structural)]
pub enum TextureDimension {
    D1,
    D2,
    D3,
    Cube,
}

/// How a storage location may be accessed.
#[derive(Debug, Clone, Copy, PartialEq, Eq, Hash, Structural)]
pub enum AccessMode {
    ReadWrite,
    Read,
    Write,
    /// Wildcard for built-in signatures that accept every access mode.
    Any,
}

impl AccessMode {
    pub fn read_write() -> (mode: AccessMode)
        ensures
            mode == AccessMode::ReadWrite,
    {
        AccessMode::ReadWrite
    }
}

/// The address space a variable or pointer lives in.
#[derive(Debug, Clone, Copy, PartialEq, Eq, Hash, Structural)]
pub enum StorageClass {
    Function,
    Private,
    Workgroup,
    Uniform,
    Storage,
    Handle,
    PushConstant,
}

impl StorageClass {
    /// The access mode of a pointer into this address space that names none.
    pub open spec fn spec_default_access_mode(self) -> AccessMode {
        match self {
            StorageClass::Function | StorageClass::Private | StorageClass::Workgroup => {
                AccessMode::ReadWrite
            },
            StorageClass::Uniform
            | StorageClass::Storage
            | StorageClass::Handle
            | StorageClass::PushConstant => AccessMode::Read,
        }
    }

    #[verifier::when_used_as_spec(spec_default_access_mode)]
    pub fn default_access_mode(self) -> (mode: AccessMode)
        ensures
            mode == self.spec_default_access_mode(),
    {
        match self {
            StorageClass::Storage => AccessMode::Read,
            StorageClass::Function => AccessMode::ReadWrite,
            StorageClass::Private => AccessMode::ReadWrite,
            StorageClass::Workgroup => AccessMode::ReadWrite,
            StorageClass::Uniform => AccessMode::Read,
            StorageClass::Handle => AccessMode::Read,
            StorageClass::PushConstant => AccessMode::Read,
        }
    }
}

#[derive(Debug, Clone, Copy, PartialEq, Eq, Hash, Structural)]
pub struct SamplerType {
    pub comparison: bool,
}

#[derive(Debug, PartialEq, Eq, Hash)]
pub struct AtomicType {
    pub inner: Box<TypeReference>,
}

#[derive(Debug, PartialEq, Eq, Hash)]
pub struct ArrayType {
    pub inner: Box<TypeReference>,
    pub binding_array: bool,
    pub size: ArraySize,
}

#[derive(Debug, PartialEq, Eq, Hash)]
pub enum ArraySize {
    Int(i64),
    Uint(u64),
    /// A module-scope constant, named but not yet resolved.
    Path(String),
    Dynamic,
}

#[derive(Debug, PartialEq, Eq, Hash)]
pub struct PointerType {
    pub storage_class: StorageClass,
    pub access_mode: AccessMode,
    pub inner: Box<TypeReference>,
}

impl Clone for TypeReference {
    fn clone(&self) -> (copy: Self)
        ensures
            copy == *self,
        decreases *self,
    {
        match self {
            TypeReference::Error => TypeReference::Error,
            TypeReference::Scalar(scalar) => TypeReference::Scalar(*scalar),
            TypeReference::Vec(vec) => TypeReference::Vec(vec.clone()),
            TypeReference::Matrix(matrix) => TypeReference::Matrix(matrix.clone()),
            TypeReference::Texture(texture) => TypeReference::Texture(texture.clone()),
            TypeReference::Sampler(sampler) => TypeReference::Sampler(*sampler),
            TypeReference::Atomic(atomic) => TypeReference::Atomic(atomic.clone()),
            TypeReference::Array(array) => TypeReference::Array(array.clone()),
            TypeReference::Path(name) => TypeReference::Path(name.clone()),
            TypeReference::Pointer(pointer) => TypeReference::Pointer(pointer.clone()),
        }
    }
}

impl Clone for VecType {
    fn clone(&self) -> (copy: Self)
        ensures
            copy == *self,
        decreases *self,
    {
        VecType { size: self.size, inner: Box::new((*self.inner).clone()) }
    }
}

impl Clone for MatrixType {
    fn clone(&self) -> (copy: Self)
        ensures
            copy == *self,
        decreases *self,
    {
        MatrixType {
            columns: self.columns,
            rows: self.rows,
            inner: Box::new((*self.inner).clone()),
        }
    }
}

impl Clone for TextureType {
    fn clone(&self) -> (copy: Self)
        ensures
            copy == *self,
        decreases *self,
    {
        TextureType {
            dimension: self.dimension,
            arrayed: self.arrayed,
            multisampled: self.multisampled,
            kind: self.kind.clone(),
        }
    }
}

impl Clone for TextureKind {
    fn clone(&self) -> (copy: Self)
        ensures
            copy == *self,
        decreases *self,
    {
        match self {
            TextureKind::Sampled(inner) => TextureKind::Sampled(Box::new((**inner).clone())),
            TextureKind::Storage(format, mode) => TextureKind::Storage(format.clone(), *mode),
            TextureKind::Depth => TextureKind::Depth,
            TextureKind::External => TextureKind::External,
        }
    }
}

impl Clone for AtomicType {
    fn clone(&self) -> (copy: Self)
        ensures
            copy == *self,
        decreases *self,
    {
        AtomicType { inner: Box::new((*self.inner).clone()) }
    }
}

impl Clone for ArraySize {
    fn clone(&self) -> (copy: Self)
        ensures
            copy == *self,
    {
        match self {
            ArraySize::Int(size) => ArraySize::Int(*size),
            ArraySize::Uint(size) => ArraySize::Uint(*size),
            ArraySize::Path(name) => ArraySize::Path(name.clone()),
            ArraySize::Dynamic => ArraySize::Dynamic,
        }
    }
}

impl Clone for ArrayType {
    fn clone(&self) -> (copy: Self)
        ensures
            copy == *self,
        decreases *self,
    {
        ArrayType {
            inner: Box::new((*self.inner).clone()),
            binding_array: self.binding_array,
            size: self.size.clone(),
        }
    }
}

impl Clone for PointerType {
    fn clone(&self) -> (copy: Self)
        ensures
            copy == *self,
        decreases *self,
    {
        PointerType {
            storage_class: self.storage_class,
            access_mode: self.access_mode,
            inner: Box::new((*self.inner).clone()),
        }
    }
}

} // verus!
