//! The canonical spelling of a type, as it is shown in hovers, hints and
//! diagnostics.
//!
//! Each type of the model has a `spelling`, the text as a sequence of
//! characters, and a `to_string` that builds it.

use vstd::prelude::*;
use crate::type_ref::{
    AccessMode, ArraySize, ArrayType, AtomicType, MatrixType, PointerType, SamplerType,
    ScalarType, StorageClass, TextureDimension, TextureKind, TextureType, TypeReference,
    VecDimensionality, VecType,
};

verus! {

/// The character of a decimal digit.
pub open spec fn digit_char(digit: int) -> char {
    if digit == 0 {
        '0'
    } else if digit == 1 {
        '1'
    } else if digit == 2 {
        '2'
    } else if digit == 3 {
        '3'
    } else if digit == 4 {
        '4'
    } else if digit == 5 {
        '5'
    } else if digit == 6 {
        '6'
    } else if digit == 7 {
        '7'
    } else if digit == 8 {
        '8'
    } else {
        '9'
    }
}

/// The decimal digits of a natural number, most significant first, without
/// leading zeros.
pub open spec fn decimal_digits(n: nat) -> Seq<char>
    decreases n,
{
    if n < 10 {
        seq![digit_char(n as int)]
    } else {
        decimal_digits(n / 10).push(digit_char((n % 10) as int))
    }
}

/// An integer in decimal, with a minus sign where it is negative.
pub open spec fn decimal(i: int) -> Seq<char> {
    if i < 0 {
        seq!['-'] + decimal_digits((-i) as nat)
    } else {
        decimal_digits(i as nat)
    }
}

fn digit_str(digit: u64) -> (text: &'static str)
    requires
        digit < 10,
    ensures
        text@ == seq![digit_char(digit as int)],
{
    proof {
        reveal_strlit("0");
        reveal_strlit("1");
        reveal_strlit("2");
        reveal_strlit("3");
        reveal_strlit("4");
        reveal_strlit("5");
        reveal_strlit("6");
        reveal_strlit("7");
        reveal_strlit("8");
        reveal_strlit("9");
    }
    let text = if digit == 0 {
        "0"
    } else if digit == 1 {
        "1"
    } else if digit == 2 {
        "2"
    } else if digit == 3 {
        "3"
    } else if digit == 4 {
        "4"
    } else if digit == 5 {
        "5"
    } else if digit == 6 {
        "6"
    } else if digit == 7 {
        "7"
    } else if digit == 8 {
        "8"
    } else {
        "9"
    };
    assert(text@ =~= seq![digit_char(digit as int)]);
    text
}

/// Appends `n` in decimal to `out`.
pub fn push_unsigned(out: &mut String, n: u64)
    ensures
        final(out)@ == old(out)@ + decimal_digits(n as nat),
    decreases n,
{
    if n >= 10 {
        push_unsigned(out, n / 10);
    }
    out.append(digit_str(n % 10));
    assert(out@ =~= old(out)@ + decimal_digits(n as nat));
}

/// Appends `i` in decimal to `out`.
pub fn push_signed(out: &mut String, i: i64)
    ensures
        final(out)@ == old(out)@ + decimal(i as int),
{
    if i < 0 {
        proof {
            reveal_strlit("-");
        }
        out.append("-");
        let magnitude: u64 = (-(i + 1)) as u64 + 1;
        push_unsigned(out, magnitude);
        assert(out@ =~= old(out)@ + decimal(i as int));
    } else {
        push_unsigned(out, i as u64);
    }
}

/// `n` in decimal.
pub fn unsigned_to_string(n: u64) -> (text: String)
    ensures
        text@ == decimal_digits(n as nat),
{
    let mut text = String::new();
    push_unsigned(&mut text, n);
    assert(text@ =~= decimal_digits(n as nat));
    text
}

impl ScalarType {
    pub open spec fn spelling(self) -> Seq<char> {
        match self {
            ScalarType::Bool => "bool"@,
            ScalarType::Float32 => "f32"@,
            ScalarType::Int32 => "i32"@,
            ScalarType::Uint32 => "u32"@,
        }
    }

    pub fn as_str(&self) -> (text: &'static str)
        ensures
            text@ == self.spelling(),
    {
        match self {
            ScalarType::Bool => "bool",
            ScalarType::Float32 => "f32",
            ScalarType::Int32 => "i32",
            ScalarType::Uint32 => "u32",
        }
    }

    pub fn to_string(&self) -> (text: String)
        ensures
            text@ == self.spelling(),
    {
        String::from_str(self.as_str())
    }
}

impl VecDimensionality {
    pub open spec fn spelling(self) -> Seq<char> {
        match self {
            VecDimensionality::Two => "2"@,
            VecDimensionality::Three => "3"@,
            VecDimensionality::Four => "4"@,
        }
    }

    pub fn as_str(&self) -> (text: &'static str)
        ensures
            text@ == self.spelling(),
    {
        match self {
            VecDimensionality::Two => "2",
            VecDimensionality::Three => "3",
            VecDimensionality::Four => "4",
        }
    }

    pub fn to_string(&self) -> (text: String)
        ensures
            text@ == self.spelling(),
    {
        String::from_str(self.as_str())
    }
}

impl TextureDimension {
    pub open spec fn spelling(self) -> Seq<char> {
        match self {
            TextureDimension::D1 => "1d"@,
            TextureDimension::D2 => "2d"@,
            TextureDimension::D3 => "3d"@,
            TextureDimension::Cube => "cube"@,
        }
    }

    pub fn as_str(&self) -> (text: &'static str)
        ensures
            text@ == self.spelling(),
    {
        match self {
            TextureDimension::D1 => "1d",
            TextureDimension::D2 => "2d",
            TextureDimension::D3 => "3d",
            TextureDimension::Cube => "cube",
        }
    }

    pub fn to_string(&self) -> (text: String)
        ensures
            text@ == self.spelling(),
    {
        String::from_str(self.as_str())
    }
}

impl AccessMode {
    pub open spec fn spelling(self) -> Seq<char> {
        match self {
            AccessMode::ReadWrite => "read_write"@,
            AccessMode::Read => "read"@,
            AccessMode::Write => "write"@,
            AccessMode::Any => "_"@,
        }
    }

    pub fn as_str(&self) -> (text: &'static str)
        ensures
            text@ == self.spelling(),
    {
        match self {
            AccessMode::ReadWrite => "read_write",
            AccessMode::Read => "read",
            AccessMode::Write => "write",
            AccessMode::Any => "_",
        }
    }

    pub fn to_string(&self) -> (text: String)
        ensures
            text@ == self.spelling(),
    {
        String::from_str(self.as_str())
    }
}

impl StorageClass {
    pub open spec fn spelling(self) -> Seq<char> {
        match self {
            StorageClass::Function => "function"@,
            StorageClass::Private => "private"@,
            StorageClass::Workgroup => "workgroup"@,
            StorageClass::Uniform => "uniform"@,
            StorageClass::Storage => "storage"@,
            StorageClass::Handle => "handle"@,
            StorageClass::PushConstant => "push_constant"@,
        }
    }

    pub fn as_str(&self) -> (text: &'static str)
        ensures
            text@ == self.spelling(),
    {
        match self {
            StorageClass::Function => "function",
            StorageClass::Private => "private",
            StorageClass::Workgroup => "workgroup",
            StorageClass::Uniform => "uniform",
            StorageClass::Storage => "storage",
            StorageClass::Handle => "handle",
            StorageClass::PushConstant => "push_constant",
        }
    }

    pub fn to_string(&self) -> (text: String)
        ensures
            text@ == self.spelling(),
    {
        String::from_str(self.as_str())
    }
}

impl SamplerType {
    pub open spec fn spelling(self) -> Seq<char> {
        if self.comparison {
            "sampler_comparison"@
        } else {
            "sampler"@
        }
    }

    pub fn as_str(&self) -> (text: &'static str)
        ensures
            text@ == self.spelling(),
    {
        if self.comparison {
            "sampler_comparison"
        } else {
            "sampler"
        }
    }

    pub fn to_string(&self) -> (text: String)
        ensures
            text@ == self.spelling(),
    {
        String::from_str(self.as_str())
    }
}

impl ArraySize {
    /// The size as it is written: a signed size in decimal, an unsigned size
    /// in decimal followed by `u`, a named size by its name. A dynamic size
    /// is not written.
    pub open spec fn spelling(self) -> Seq<char> {
        match self {
            ArraySize::Int(size) => decimal(size as int),
            ArraySize::Uint(size) => decimal_digits(size as nat) + "u"@,
            ArraySize::Path(name) => name@,
            ArraySize::Dynamic => Seq::empty(),
        }
    }

    pub fn to_string(&self) -> (text: String)
        ensures
            text@ == self.spelling(),
    {
        match self {
            ArraySize::Int(size) => {
                let mut text = String::new();
                push_signed(&mut text, *size);
                assert(text@ =~= decimal(*size as int));
                text
            },
            ArraySize::Uint(size) => {
                let mut text = unsigned_to_string(*size);
                text.append("u");
                text
            },
            ArraySize::Path(name) => name.clone(),
            ArraySize::Dynamic => String::new(),
        }
    }
}

/// The part of a texture's name that says it is multisampled, before the
/// dimension.
pub open spec fn multisampled_prefix(multisampled: bool) -> Seq<char> {
    if multisampled {
        "multisampled_"@
    } else {
        ""@
    }
}

/// The part of a storage texture's name that says it is multisampled, after
/// the dimension.
pub open spec fn multisampled_suffix(multisampled: bool) -> Seq<char> {
    if multisampled {
        "_multisampled"@
    } else {
        ""@
    }
}

/// The part of a texture's name that says it is arrayed.
pub open spec fn array_suffix(arrayed: bool) -> Seq<char> {
    if arrayed {
        "_array"@
    } else {
        ""@
    }
}

/// The part of an array's name that tells the two kinds of array apart.
pub open spec fn binding_prefix(binding_array: bool) -> Seq<char> {
    if binding_array {
        "binding_"@
    } else {
        ""@
    }
}

impl TypeReference {
    /// The canonical spelling of the type.
    pub open spec fn spelling(self) -> Seq<char>
        decreases self,
    {
        match self {
            TypeReference::Error => "[error]"@,
            TypeReference::Scalar(scalar) => scalar.spelling(),
            TypeReference::Vec(vec) => "vec"@ + vec.size.spelling() + "<"@ + vec.inner.spelling()
                + ">"@,
            TypeReference::Matrix(matrix) => "mat"@ + matrix.columns.spelling() + "x"@
                + matrix.rows.spelling() + "<"@ + matrix.inner.spelling() + ">"@,
            TypeReference::Texture(texture) => match texture.kind {
                TextureKind::Sampled(inner) => "texture_"@ + multisampled_prefix(
                    texture.multisampled,
                ) + texture.dimension.spelling() + array_suffix(texture.arrayed) + "<"@
                    + inner.spelling() + ">"@,
                TextureKind::Storage(format, mode) => "texture_storage_"@
                    + texture.dimension.spelling() + multisampled_suffix(texture.multisampled)
                    + array_suffix(texture.arrayed) + "<"@ + format@ + ", "@ + mode.spelling()
                    + ">"@,
                TextureKind::Depth => "texture_depth_"@ + multisampled_prefix(texture.multisampled)
                    + texture.dimension.spelling() + array_suffix(texture.arrayed),
                TextureKind::External => "texture_external"@,
            },
            TypeReference::Sampler(sampler) => sampler.spelling(),
            TypeReference::Atomic(atomic) => "atomic<"@ + atomic.inner.spelling() + ">"@,
            TypeReference::Array(array) => match array.size {
                ArraySize::Dynamic => binding_prefix(array.binding_array) + "array<"@
                    + array.inner.spelling() + ">"@,
                size => binding_prefix(array.binding_array) + "array<"@ + array.inner.spelling()
                    + ", "@ + size.spelling() + ">"@,
            },
            TypeReference::Path(name) => name@,
            TypeReference::Pointer(pointer) => "ptr<"@ + pointer.storage_class.spelling() + ", "@
                + pointer.inner.spelling() + ">"@,
        }
    }

    /// Builds the canonical spelling of the type.
    pub fn to_string(&self) -> (text: String)
        ensures
            text@ == self.spelling(),
        decreases *self, 0nat,
    {
        match self {
            TypeReference::Error => String::from_str("[error]"),
            TypeReference::Scalar(scalar) => scalar.to_string(),
            TypeReference::Vec(vec) => vec.to_string(),
            TypeReference::Matrix(matrix) => matrix.to_string(),
            TypeReference::Texture(texture) => texture.to_string(),
            TypeReference::Sampler(sampler) => sampler.to_string(),
            TypeReference::Atomic(atomic) => atomic.to_string(),
            TypeReference::Array(array) => array.to_string(),
            TypeReference::Path(name) => name.clone(),
            TypeReference::Pointer(pointer) => pointer.to_string(),
        }
    }
}

impl VecType {
    pub open spec fn spelling(self) -> Seq<char> {
        TypeReference::Vec(self).spelling()
    }

    /// `vecN<T>`.
    pub fn to_string(&self) -> (text: String)
        ensures
            text@ == self.spelling(),
        decreases *self, 1nat,
    {
        let inner = self.inner.to_string();
        let mut text = String::from_str("vec");
        text.append(self.size.as_str());
        text.append("<");
        text.append(inner.as_str());
        text.append(">");
        text
    }
}

impl MatrixType {
    pub open spec fn spelling(self) -> Seq<char> {
        TypeReference::Matrix(self).spelling()
    }

    /// `matCxR<T>`.
    pub fn to_string(&self) -> (text: String)
        ensures
            text@ == self.spelling(),
        decreases *self, 1nat,
    {
        let inner = self.inner.to_string();
        let mut text = String::from_str("mat");
        text.append(self.columns.as_str());
        text.append("x");
        text.append(self.rows.as_str());
        text.append("<");
        text.append(inner.as_str());
        text.append(">");
        text
    }
}

impl TextureType {
    pub open spec fn spelling(self) -> Seq<char> {
        TypeReference::Texture(self).spelling()
    }

    /// `texture[_multisampled]_{dim}[_array]<T>` for a sampled texture,
    /// `texture_storage_{dim}[_multisampled][_array]<format, mode>` for a
    /// storage texture, `texture_depth_[multisampled_]{dim}[_array]` for a
    /// depth texture, and `texture_external`.
    pub fn to_string(&self) -> (text: String)
        ensures
            text@ == self.spelling(),
        decreases *self, 1nat,
    {
        match &self.kind {
            TextureKind::Sampled(inner) => {
                let inner = inner.to_string();
                let mut text = String::from_str("texture_");
                text.append(if self.multisampled { "multisampled_" } else { "" });
                text.append(self.dimension.as_str());
                text.append(if self.arrayed { "_array" } else { "" });
                text.append("<");
                text.append(inner.as_str());
                text.append(">");
                text
            },
            TextureKind::Storage(format, mode) => {
                let mut text = String::from_str("texture_storage_");
                text.append(self.dimension.as_str());
                text.append(if self.multisampled { "_multisampled" } else { "" });
                text.append(if self.arrayed { "_array" } else { "" });
                text.append("<");
                text.append(format.as_str());
                text.append(", ");
                text.append(mode.as_str());
                text.append(">");
                text
            },
            TextureKind::Depth => {
                let mut text = String::from_str("texture_depth_");
                text.append(if self.multisampled { "multisampled_" } else { "" });
                text.append(self.dimension.as_str());
                text.append(if self.arrayed { "_array" } else { "" });
                text
            },
            TextureKind::External => String::from_str("texture_external"),
        }
    }
}

impl AtomicType {
    pub open spec fn spelling(self) -> Seq<char> {
        TypeReference::Atomic(self).spelling()
    }

    /// `atomic<T>`.
    pub fn to_string(&self) -> (text: String)
        ensures
            text@ == self.spelling(),
        decreases *self, 1nat,
    {
        let inner = self.inner.to_string();
        let mut text = String::from_str("atomic<");
        text.append(inner.as_str());
        text.append(">");
        text
    }
}

impl ArrayType {
    pub open spec fn spelling(self) -> Seq<char> {
        TypeReference::Array(self).spelling()
    }

    /// `[binding_]array<T>` where the size is dynamic, `[binding_]array<T, N>`
    /// otherwise. An unsigned size is followed by `u`, as the literal is
    /// that it was read from, so that it is told from a signed one.
    pub fn to_string(&self) -> (text: String)
        ensures
            text@ == self.spelling(),
        decreases *self, 1nat,
    {
        let inner = self.inner.to_string();
        let mut text = String::from_str(if self.binding_array { "binding_" } else { "" });
        text.append("array<");
        text.append(inner.as_str());
        match &self.size {
            ArraySize::Dynamic => {},
            size => {
                let size = size.to_string();
                text.append(", ");
                text.append(size.as_str());
            },
        }
        text.append(">");
        text
    }
}

impl PointerType {
    pub open spec fn spelling(self) -> Seq<char> {
        TypeReference::Pointer(self).spelling()
    }

    /// `ptr<storage_class, T>`; the access mode is not part of the spelling.
    pub fn to_string(&self) -> (text: String)
        ensures
            text@ == self.spelling(),
        decreases *self, 1nat,
    {
        let inner = self.inner.to_string();
        let mut text = String::from_str("ptr<");
        text.append(self.storage_class.as_str());
        text.append(", ");
        text.append(inner.as_str());
        text.append(">");
        text
    }
}

/// Whether a character is a decimal digit.
pub open spec fn is_digit(c: char) -> bool {
    0x30 <= c as u32 <= 0x39
}

/// Whether a text is a name as the source writes one: a letter or an
/// underscore, followed by letters, digits and underscores.
pub open spec fn is_identifier(name: Seq<char>) -> bool {
    &&& name.len() > 0
    &&& !is_digit(name[0])
    &&& forall|i: int|
        0 <= i < name.len() ==> {
            let c = #[trigger] name[i];
            ||| c == '_'
            ||| is_digit(c)
            ||| 0x41 <= c as u32 <= 0x5a
            ||| 0x61 <= c as u32 <= 0x7a
        }
}

impl ArraySize {
    /// Whether the size is one that the source can write: a named size is
    /// named by an identifier.
    pub open spec fn is_written(self) -> bool {
        self matches ArraySize::Path(name) ==> is_identifier(name@)
    }

    /// Whether two sizes are the same: of the same kind, and the same number
    /// or the same name.
    pub open spec fn same_as(self, other: ArraySize) -> bool {
        match (self, other) {
            (ArraySize::Int(a), ArraySize::Int(b)) => a == b,
            (ArraySize::Uint(a), ArraySize::Uint(b)) => a == b,
            (ArraySize::Path(a), ArraySize::Path(b)) => a@ == b@,
            (ArraySize::Dynamic, ArraySize::Dynamic) => true,
            _ => false,
        }
    }
}

/// A number in decimal is made of digits, at least one.
pub proof fn lemma_decimal_digits_are_digits(n: nat)
    ensures
        decimal_digits(n).len() >= 1,
        n >= 10 ==> decimal_digits(n).len() >= 2,
        forall|i: int| 0 <= i < decimal_digits(n).len() ==> is_digit(#[trigger] decimal_digits(n)[i]),
    decreases n,
{
    if n >= 10 {
        lemma_decimal_digits_are_digits(n / 10);
    }
}

/// Two numbers that are written the same in decimal are the same number.
pub proof fn lemma_decimal_digits_are_lossless(a: nat, b: nat)
    requires
        decimal_digits(a) == decimal_digits(b),
    ensures
        a == b,
    decreases a,
{
    lemma_decimal_digits_are_digits(a);
    lemma_decimal_digits_are_digits(b);
    if a >= 10 && b >= 10 {
        let front_a = decimal_digits(a / 10);
        let front_b = decimal_digits(b / 10);
        assert(front_a =~= decimal_digits(a).drop_last());
        assert(front_b =~= decimal_digits(b).drop_last());
        assert(decimal_digits(a).last() == digit_char((a % 10) as int));
        assert(decimal_digits(b).last() == digit_char((b % 10) as int));
        lemma_decimal_digits_are_lossless(a / 10, b / 10);
        lemma_digit_char_is_lossless((a % 10) as int, (b % 10) as int);
    } else if a < 10 && b < 10 {
        assert(decimal_digits(a)[0] == digit_char(a as int));
        assert(decimal_digits(b)[0] == digit_char(b as int));
        lemma_digit_char_is_lossless(a as int, b as int);
    } else {
        assert(decimal_digits(a).len() == decimal_digits(b).len());
    }
}

/// Two digits that are written the same are the same digit.
pub proof fn lemma_digit_char_is_lossless(a: int, b: int)
    requires
        0 <= a <= 9,
        0 <= b <= 9,
        digit_char(a) == digit_char(b),
    ensures
        a == b,
{
}

/// Two integers that are written the same in decimal are the same integer.
pub proof fn lemma_decimal_is_lossless(a: int, b: int)
    requires
        decimal(a) == decimal(b),
    ensures
        a == b,
{
    let size_a = if a < 0 {
        (-a) as nat
    } else {
        a as nat
    };
    let size_b = if b < 0 {
        (-b) as nat
    } else {
        b as nat
    };
    lemma_decimal_digits_are_digits(size_a);
    lemma_decimal_digits_are_digits(size_b);
    assert(decimal(a)[0] == decimal(b)[0]);
    if a < 0 {
        assert(decimal(a)[0] == '-');
        assert(b < 0) by {
            if b >= 0 {
                assert(is_digit(decimal_digits(size_b)[0]));
            }
        }
        assert(decimal_digits(size_a) =~= decimal(a).drop_first());
        assert(decimal_digits(size_b) =~= decimal(b).drop_first());
    } else {
        assert(is_digit(decimal_digits(size_a)[0]));
    }
    lemma_decimal_digits_are_lossless(size_a, size_b);
}

/// The spelling of a size tells the size: two sizes that the source can
/// write and that are spelled the same are of the same kind, and are the
/// same number or the same name.
pub proof fn lemma_size_spelling_is_lossless(a: ArraySize, b: ArraySize)
    requires
        a.is_written(),
        b.is_written(),
        a.spelling() == b.spelling(),
    ensures
        a.same_as(b),
{
    reveal_strlit("u");
    let text = a.spelling();
    let number_a = match a {
        ArraySize::Int(size) => if size < 0 {
            (-size) as nat
        } else {
            size as nat
        },
        ArraySize::Uint(size) => size as nat,
        _ => 0,
    };
    let number_b = match b {
        ArraySize::Int(size) => if size < 0 {
            (-size) as nat
        } else {
            size as nat
        },
        ArraySize::Uint(size) => size as nat,
        _ => 0,
    };
    lemma_decimal_digits_are_digits(number_a);
    lemma_decimal_digits_are_digits(number_b);
    let digits_a = decimal_digits(number_a);
    let digits_b = decimal_digits(number_b);
    // What a spelling starts and ends with tells its kind.
    match a {
        ArraySize::Int(size) => {
            assert(text.len() >= 1);
            assert(text[0] == '-' || is_digit(text[0])) by {
                if size >= 0 {
                    assert(text[0] == digits_a[0]);
                }
            }
            assert(is_digit(text.last())) by {
                assert(text.last() == digits_a.last());
            }
        },
        ArraySize::Uint(size) => {
            assert(text.len() >= 2);
            assert(is_digit(text[0])) by {
                assert(text[0] == digits_a[0]);
            }
            assert(text.last() == 'u');
        },
        ArraySize::Path(name) => {
            assert(text.len() >= 1 && !is_digit(text[0]) && text[0] != '-');
        },
        ArraySize::Dynamic => {
            assert(text.len() == 0);
        },
    }
    match b {
        ArraySize::Int(size) => {
            assert(text.len() >= 1);
            assert(text[0] == '-' || is_digit(text[0])) by {
                if size >= 0 {
                    assert(text[0] == digits_b[0]);
                }
            }
            assert(is_digit(text.last())) by {
                assert(text.last() == digits_b.last());
            }
        },
        ArraySize::Uint(size) => {
            assert(text.len() >= 2);
            assert(is_digit(text[0])) by {
                assert(text[0] == digits_b[0]);
            }
            assert(text.last() == 'u');
        },
        ArraySize::Path(name) => {
            assert(text.len() >= 1 && !is_digit(text[0]) && text[0] != '-');
        },
        ArraySize::Dynamic => {
            assert(text.len() == 0);
        },
    }
    match (a, b) {
        (ArraySize::Int(x), ArraySize::Int(y)) => {
            lemma_decimal_is_lossless(x as int, y as int);
        },
        (ArraySize::Uint(x), ArraySize::Uint(y)) => {
            assert(digits_a =~= text.drop_last());
            assert(digits_b =~= text.drop_last());
            lemma_decimal_digits_are_lossless(x as nat, y as nat);
        },
        _ => {},
    }
}

/// An array with a signed size and an array with an unsigned size never
/// share a spelling, whatever their elements and sizes are: before the
/// closing bracket the one has a digit, the other a `u`.
pub proof fn lemma_signedness_shows_in_spelling(signed: ArrayType, unsigned: ArrayType)
    requires
        signed.size is Int,
        unsigned.size is Uint,
    ensures
        signed.spelling() != unsigned.spelling(),
        TypeReference::Array(signed).spelling() != TypeReference::Array(unsigned).spelling(),
{
    reveal_strlit(">");
    reveal_strlit("u");
    let size = signed.size->Int_0;
    let number = if size < 0 {
        (-size) as nat
    } else {
        size as nat
    };
    lemma_decimal_digits_are_digits(number);
    assert(is_digit(decimal(size as int).last())) by {
        assert(decimal(size as int).last() == decimal_digits(number).last());
    }
    let signed_front = binding_prefix(signed.binding_array) + "array<"@ + signed.inner.spelling()
        + ", "@;
    let signed_text = signed_front + decimal(size as int) + ">"@;
    assert(signed.spelling() == signed_text);
    assert(signed_text[signed_text.len() - 2] == decimal(size as int).last());
    let unsigned_front = binding_prefix(unsigned.binding_array) + "array<"@
        + unsigned.inner.spelling() + ", "@;
    let unsigned_text = unsigned_front + unsigned.size.spelling() + ">"@;
    assert(unsigned.spelling() == unsigned_text);
    assert(unsigned_text[unsigned_text.len() - 2] == 'u');
}

/// Two arrays of the same kind, whose elements are spelled the same and
/// whose sizes the source can write, are spelled the same only where their
/// sizes are the same: no size is lost in the spelling.
pub proof fn lemma_array_spelling_keeps_the_size(a: ArrayType, b: ArrayType)
    requires
        a.binding_array == b.binding_array,
        a.inner.spelling() == b.inner.spelling(),
        a.size.is_written(),
        b.size.is_written(),
        a.spelling() == b.spelling(),
    ensures
        a.size.same_as(b.size),
{
    reveal_strlit(">");
    reveal_strlit(", ");
    let front = binding_prefix(a.binding_array) + "array<"@ + a.inner.spelling();
    let rest_a = if a.size is Dynamic {
        ">"@
    } else {
        ", "@ + a.size.spelling() + ">"@
    };
    let rest_b = if b.size is Dynamic {
        ">"@
    } else {
        ", "@ + b.size.spelling() + ">"@
    };
    assert(a.spelling() =~= front + rest_a);
    assert(b.spelling() =~= front + rest_b);
    assert(rest_a =~= (front + rest_a).skip(front.len() as int));
    assert(rest_b =~= (front + rest_b).skip(front.len() as int));
    assert(rest_a == rest_b);
    if a.size is Dynamic || b.size is Dynamic {
        assert(rest_a.len() == 1);
        assert(a.size is Dynamic && b.size is Dynamic);
    } else {
        assert(a.size.spelling() =~= rest_a.subrange(2, rest_a.len() - 1));
        assert(b.size.spelling() =~= rest_b.subrange(2, rest_b.len() - 1));
        lemma_size_spelling_is_lossless(a.size, b.size);
    }
}

} // verus!
