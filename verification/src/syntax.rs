//! The shape of a type as it is written in source: the keyword that was used
//! and the generic arguments that follow it, as far as they are present.

use vstd::prelude::*;

verus! {

/// A type as written.
#[derive(Debug, PartialEq, Eq)]
pub enum TypeSyntax {
    /// A named type; the name is absent where the source is incomplete.
    Path(Option<String>),
    Scalar(ScalarKeyword),
    Vec(VecKeyword, Option<Vec<GenericArg>>),
    Matrix(MatrixKeyword, Option<Vec<GenericArg>>),
    Texture(TextureKeyword, Option<Vec<GenericArg>>),
    Sampler(SamplerKeyword),
    Atomic(Option<Vec<GenericArg>>),
    Array(Option<Vec<GenericArg>>),
    BindingArray(Option<Vec<GenericArg>>),
    Pointer(Option<Vec<GenericArg>>),
}

/// One argument of a generic-argument list.
#[derive(Debug, PartialEq, Eq)]
pub enum GenericArg {
    Type(TypeSyntax),
    Literal(Literal),
    AccessMode(AccessModeKeyword),
    StorageClass(StorageClassKeyword),
}

/// A literal, with the value it was parsed to where it is an integer.
#[derive(Debug, Clone, Copy, PartialEq, Eq, Structural)]
pub enum Literal {
    Int(i64),
    Uint(u64),
    Float,
    Bool(bool),
}

#[derive(Debug, Clone, Copy, PartialEq, Eq, Structural)]
pub enum ScalarKeyword {
    Bool,
    Float32,
    Int32,
    Uint32,
}

#[derive(Debug, Clone, Copy, PartialEq, Eq, Structural)]
pub enum VecKeyword {
    Vec2,
    Vec3,
    Vec4,
}

#[derive(Debug, Clone, Copy, PartialEq, Eq, Structural)]
pub enum MatrixKeyword {
    Mat2x2,
    Mat2x3,
    Mat2x4,
    Mat3x2,
    Mat3x3,
    Mat3x4,
    Mat4x2,
    Mat4x3,
    Mat4x4,
}

#[derive(Debug, Clone, Copy, PartialEq, Eq, Structural)]
pub enum TextureKeyword {
    Texture1d,
    Texture2d,
    Texture2dArray,
    Texture3d,
    TextureCube,
    TextureCubeArray,
    TextureMultisampled2d,
    TextureExternal,
    TextureStorage1d,
    TextureStorage2d,
    TextureStorage2dArray,
    TextureStorage3d,
    TextureDepth2d,
    TextureDepth2dArray,
    TextureDepthCube,
    TextureDepthCubeArray,
    TextureDepthMultisampled2d,
}

#[derive(Debug, Clone, Copy, PartialEq, Eq, Structural)]
pub enum SamplerKeyword {
    Sampler,
    SamplerComparison,
}

#[derive(Debug, Clone, Copy, PartialEq, Eq, Structural)]
pub enum AccessModeKeyword {
    Read,
    Write,
    ReadWrite,
}

#[derive(Debug, Clone, Copy, PartialEq, Eq, Structural)]
pub enum StorageClassKeyword {
    Function,
    Private,
    Workgroup,
    Uniform,
    Storage,
    PushConstant,
}

/// An expression as written, as far as a name can stand for it.
#[derive(Debug, PartialEq, Eq)]
pub enum Expression {
    /// A reference to a name; the name is absent where the source is
    /// incomplete.
    Path(Option<String>),
    /// A prefix operator and its operand; the operand is absent where the
    /// source is incomplete.
    Prefix(Option<Box<Expression>>),
    /// A field access, with the name of the field.
    Field(Option<String>),
    /// Any other expression.
    Other,
}

impl GenericArg {
    /// The type that this argument is, if it is one.
    pub open spec fn spec_as_type(self) -> Option<TypeSyntax> {
        match self {
            GenericArg::Type(ty) => Some(ty),
            _ => None,
        }
    }

    pub fn as_type(&self) -> (ty: Option<&TypeSyntax>)
        ensures
            ty == match self.spec_as_type() {
                Some(t) => Some(&t),
                None => None,
            },
    {
        match self {
            GenericArg::Type(ty) => Some(ty),
            _ => None,
        }
    }
}

impl TypeSyntax {
    /// The name that this type is, if it is a named type whose name is present.
    pub open spec fn spec_as_name(self) -> Option<String> {
        match self {
            TypeSyntax::Path(Some(name)) => Some(name),
            _ => None,
        }
    }

    pub fn as_name(&self) -> (name: Option<&String>)
        ensures
            name == match self.spec_as_name() {
                Some(n) => Some(&n),
                None => None,
            },
    {
        match self {
            TypeSyntax::Path(Some(name)) => Some(name),
            _ => None,
        }
    }
}

/// The argument at position `n` of a generic-argument list, if the list is
/// present and that long.
pub open spec fn spec_generic_at(generics: Option<Vec<GenericArg>>, n: int) -> Option<GenericArg> {
    match generics {
        Some(args) => if 0 <= n < args.len() {
            Some(args[n])
        } else {
            None
        },
        None => None,
    }
}

pub fn generic_at(generics: &Option<Vec<GenericArg>>, n: usize) -> (arg: Option<&GenericArg>)
    ensures
        arg == match spec_generic_at(*generics, n as int) {
            Some(a) => Some(&a),
            None => None,
        },
{
    match generics {
        Some(args) => if n < args.len() {
            Some(&args[n])
        } else {
            None
        },
        None => None,
    }
}

/// The first generic argument, if the list is present, not empty, and starts
/// with a type.
pub open spec fn spec_first_type_generic(generics: Option<Vec<GenericArg>>) -> Option<TypeSyntax> {
    match spec_generic_at(generics, 0) {
        Some(arg) => arg.spec_as_type(),
        None => None,
    }
}

pub fn first_type_generic(generics: &Option<Vec<GenericArg>>) -> (ty: Option<&TypeSyntax>)
    ensures
        ty == match spec_first_type_generic(*generics) {
            Some(t) => Some(&t),
            None => None,
        },
{
    match generic_at(generics, 0) {
        Some(arg) => arg.as_type(),
        None => None,
    }
}

} // verus!
