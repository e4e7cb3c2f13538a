//! Host-shareable memory layout: the size and alignment of a type, and the
//! byte offset of each member of a struct, under an address space.
//!
//! Sizes are counted in `Bytes`. A type has a layout only where every size
//! that goes into it fits in `Bytes`.

use vstd::prelude::*;
use crate::type_ref::{ArraySize, TypeReference, VecDimensionality};

verus! {

/// A number of bytes.
pub type Bytes = u32;

/// The address space that a layout is computed for. The same struct may be
/// laid out under either, depending on where it is used.
#[derive(Debug, Clone, Copy, PartialEq, Eq, Hash, Structural)]
pub enum LayoutAddressSpace {
    Uniform,
    Storage,
}

/// Where a member of a struct lies.
#[derive(Debug, Clone, Copy, PartialEq, Eq, Hash, Structural)]
pub struct FieldLayout {
    pub offset: Bytes,
    pub align: Bytes,
    pub size: Bytes,
}

/// A member of a struct.
#[derive(Debug, PartialEq, Eq)]
pub struct Field {
    pub name: String,
    pub ty: TypeReference,
}

/// A struct declaration: its name and its members in declaration order.
#[derive(Debug, PartialEq, Eq)]
pub struct StructData {
    pub name: String,
    pub fields: Vec<Field>,
}

/// What the callback of a layout pass answers after a field.
#[derive(Debug, Clone, Copy, PartialEq, Eq, Hash, Structural)]
pub enum Visit {
    /// Go on with the next field.
    Continue,
    /// End the pass; the fields that remain are not visited.
    Stop,
}

/// The alignment and the size of a scalar.
pub const SCALAR_BYTES: Bytes = 4;

/// What sizes are rounded up to in the uniform address space.
pub const UNIFORM_ROUNDING: Bytes = 16;

/// The least multiple of `multiple` that is not below `n`.
pub open spec fn round_up(n: nat, multiple: nat) -> nat {
    if multiple == 0 {
        n
    } else {
        (((n + multiple - 1) / (multiple as int)) * multiple) as nat
    }
}

/// The number of components that a dimensionality stands for.
pub open spec fn component_count(size: VecDimensionality) -> nat {
    match size {
        VecDimensionality::Two => 2,
        VecDimensionality::Three => 3,
        VecDimensionality::Four => 4,
    }
}

/// The alignment and the size of a vector. A vector of two components is
/// aligned to two scalars, one of three or four components to four scalars.
pub open spec fn vector_layout(size: VecDimensionality) -> (nat, nat) {
    (
        match size {
            VecDimensionality::Two => 2 * SCALAR_BYTES as nat,
            _ => 4 * SCALAR_BYTES as nat,
        },
        component_count(size) * SCALAR_BYTES as nat,
    )
}

/// The alignment and the size of a matrix: its columns, each a vector of
/// `rows` components, one after the other.
pub open spec fn matrix_layout(columns: VecDimensionality, rows: VecDimensionality) -> (nat, nat) {
    (vector_layout(rows).0, component_count(columns) * vector_layout(rows).1)
}

/// The distance in bytes from one element of an array to the next.
pub open spec fn array_stride(align: nat, size: nat, space: LayoutAddressSpace) -> nat {
    match space {
        LayoutAddressSpace::Storage => round_up(size, align),
        LayoutAddressSpace::Uniform => round_up(round_up(size, align), UNIFORM_ROUNDING as nat),
    }
}

/// The size of a struct whose members end at `end` and whose alignment is
/// `align`.
pub open spec fn struct_size(end: nat, align: nat, space: LayoutAddressSpace) -> nat {
    match space {
        LayoutAddressSpace::Storage => round_up(end, align),
        LayoutAddressSpace::Uniform => round_up(round_up(end, align), UNIFORM_ROUNDING as nat),
    }
}

/// The alignment and the size, where the size fits in `Bytes`.
pub open spec fn sized(align: nat, size: nat) -> Option<(nat, nat)> {
    if size <= Bytes::MAX {
        Some((align, size))
    } else {
        None
    }
}

/// The position in `table` of the first struct named `name`, looking from
/// position `from` on.
pub open spec fn position_of_struct_from(table: Seq<StructData>, name: Seq<char>, from: int) -> Option<
    int,
>
    decreases table.len() - from,
{
    if from < 0 || from >= table.len() {
        None
    } else if table[from].name@ == name {
        Some(from)
    } else {
        position_of_struct_from(table, name, from + 1)
    }
}

/// The position in `table` of the first struct named `name`.
pub open spec fn position_of_struct(table: Seq<StructData>, name: Seq<char>) -> Option<int> {
    position_of_struct_from(table, name, 0)
}

/// The alignment and the size of `ty`, or `None` where it has no layout.
///
/// A scalar, a vector, a matrix and an atomic have a layout; so has an array
/// of elements that have one, and a struct, named by a path and found in
/// `table`, whose members all have one. An array whose length is not a
/// literal is laid out as one element. Structs nested in one another are
/// followed `depth` deep.
pub open spec fn layout_of_type(
    ty: TypeReference,
    table: Seq<StructData>,
    space: LayoutAddressSpace,
    depth: nat,
) -> Option<(nat, nat)>
    decreases depth, 0nat, 0nat, ty,
{
    match ty {
        TypeReference::Scalar(_) => Some((SCALAR_BYTES as nat, SCALAR_BYTES as nat)),
        TypeReference::Vec(vec) => Some(vector_layout(vec.size)),
        TypeReference::Matrix(matrix) => Some(matrix_layout(matrix.columns, matrix.rows)),
        TypeReference::Atomic(atomic) => layout_of_type(*atomic.inner, table, space, depth),
        TypeReference::Array(array) => match layout_of_type(*array.inner, table, space, depth) {
            Some((align, size)) => {
                let stride = array_stride(align, size, space);
                if stride > Bytes::MAX {
                    None
                } else {
                    match array.size {
                        ArraySize::Int(count) => if count >= 0 {
                            sized(align, stride * (count as nat))
                        } else {
                            None
                        },
                        ArraySize::Uint(count) => sized(align, stride * (count as nat)),
                        ArraySize::Path(_) | ArraySize::Dynamic => Some((align, stride)),
                    }
                }
            },
            None => None,
        },
        TypeReference::Path(name) => match position_of_struct(table, name@) {
            Some(position) => if depth > 0 {
                layout_of_struct(table[position].fields@, table, space, (depth - 1) as nat)
            } else {
                None
            },
            None => None,
        },
        _ => None,
    }
}

/// Where the members stand after the first `count` fields have been laid
/// out: the offset at which the last of them ends, and the greatest
/// alignment among them. `None` where one of them cannot be laid out.
pub open spec fn walked(
    fields: Seq<Field>,
    table: Seq<StructData>,
    space: LayoutAddressSpace,
    depth: nat,
    count: nat,
) -> Option<(nat, nat)>
    decreases depth, 1nat, 2 * count,
{
    if count == 0 {
        Some((0, 1))
    } else {
        match (
            walked(fields, table, space, depth, (count - 1) as nat),
            layout_of_field(fields, table, space, depth, (count - 1) as nat),
        ) {
            (Some((_, align)), Some(layout)) => Some(
                (
                    (layout.offset + layout.size) as nat,
                    if layout.align > align {
                        layout.align as nat
                    } else {
                        align
                    },
                ),
            ),
            _ => None,
        }
    }
}

/// The layout of the field at `index`: its offset is the end of the field
/// before it, rounded up to its own alignment. `None` where this field or one
/// before it has no layout, or where the field would end beyond `Bytes`.
pub open spec fn layout_of_field(
    fields: Seq<Field>,
    table: Seq<StructData>,
    space: LayoutAddressSpace,
    depth: nat,
    index: nat,
) -> Option<FieldLayout>
    decreases depth, 1nat, 2 * index + 1,
{
    if index >= fields.len() {
        None
    } else {
        match (
            walked(fields, table, space, depth, index),
            layout_of_type(fields[index as int].ty, table, space, depth),
        ) {
            (Some((cursor, _)), Some((align, size))) => {
                let offset = round_up(cursor, align);
                if offset + size <= Bytes::MAX && align <= Bytes::MAX {
                    Some(
                        FieldLayout {
                            offset: offset as Bytes,
                            align: align as Bytes,
                            size: size as Bytes,
                        },
                    )
                } else {
                    None
                }
            },
            _ => None,
        }
    }
}

/// The alignment and the size of a struct with these members: the greatest
/// alignment among the members, and the end of the last member rounded up to
/// it, and to sixteen bytes in the uniform address space.
pub open spec fn layout_of_struct(
    fields: Seq<Field>,
    table: Seq<StructData>,
    space: LayoutAddressSpace,
    depth: nat,
) -> Option<(nat, nat)>
    decreases depth, 2nat,
{
    match walked(fields, table, space, depth, fields.len()) {
        Some((end, align)) => sized(align, struct_size(end, align, space)),
        None => None,
    }
}

/// `round_up` gives a multiple of `multiple`, not below `n`, and less than
/// `multiple` above it: the least such multiple.
pub proof fn lemma_round_up(n: nat, multiple: nat)
    requires
        multiple > 0,
    ensures
        round_up(n, multiple) % multiple == 0,
        n <= round_up(n, multiple) < n + multiple,
{
    let x = (n + multiple - 1) as int;
    let m = multiple as int;
    assert((x / m) * m % m == 0 && x - m < (x / m) * m <= x) by (nonlinear_arith)
        requires
            m > 0,
            x >= 0,
    ;
}

/// Once a field cannot be laid out, no later state of the walk exists.
pub proof fn lemma_walk_ends(
    fields: Seq<Field>,
    table: Seq<StructData>,
    space: LayoutAddressSpace,
    depth: nat,
    count: nat,
    later: nat,
)
    requires
        count <= later,
        walked(fields, table, space, depth, count) is None,
    ensures
        walked(fields, table, space, depth, later) is None,
    decreases later,
{
    if count < later {
        lemma_walk_ends(fields, table, space, depth, count, (later - 1) as nat);
    }
}

/// The alignment of a type that has a layout is at least one byte.
pub proof fn lemma_align_is_positive(
    ty: TypeReference,
    table: Seq<StructData>,
    space: LayoutAddressSpace,
    depth: nat,
)
    ensures
        layout_of_type(ty, table, space, depth) matches Some((align, _)) ==> align >= 1,
    decreases depth, 0nat, 0nat, ty,
{
    reveal_with_fuel(layout_of_type, 2);
    reveal_with_fuel(layout_of_struct, 2);
    match ty {
        TypeReference::Atomic(atomic) => {
            lemma_align_is_positive(*atomic.inner, table, space, depth);
        },
        TypeReference::Array(array) => {
            lemma_align_is_positive(*array.inner, table, space, depth);
        },
        TypeReference::Path(name) => {
            if let Some(position) = position_of_struct(table, name@) {
                if depth > 0 {
                    let fields = table[position].fields@;
                    lemma_walk_align_is_positive(
                        fields,
                        table,
                        space,
                        (depth - 1) as nat,
                        fields.len(),
                    );
                }
            }
        },
        _ => {},
    }
}

/// The greatest alignment among the fields that were laid out is at least
/// one byte.
pub proof fn lemma_walk_align_is_positive(
    fields: Seq<Field>,
    table: Seq<StructData>,
    space: LayoutAddressSpace,
    depth: nat,
    count: nat,
)
    ensures
        walked(fields, table, space, depth, count) matches Some((_, align)) ==> align >= 1,
    decreases depth, 1nat, count,
{
    reveal_with_fuel(walked, 2);
    if count > 0 {
        lemma_walk_align_is_positive(fields, table, space, depth, (count - 1) as nat);
    }
}

/// A field starts at a multiple of its alignment, and not before the field
/// in front of it ends.
pub proof fn lemma_fields_are_aligned_and_apart(
    fields: Seq<Field>,
    table: Seq<StructData>,
    space: LayoutAddressSpace,
    depth: nat,
    index: nat,
)
    requires
        layout_of_field(fields, table, space, depth, index) is Some,
    ensures
        ({
            let layout = layout_of_field(fields, table, space, depth, index)->0;
            &&& layout.align >= 1
            &&& layout.offset % layout.align == 0
            &&& index > 0 ==> {
                &&& layout_of_field(fields, table, space, depth, (index - 1) as nat) matches Some(
                    before,
                )
                &&& before.offset + before.size <= layout.offset
                &&& layout.offset < before.offset + before.size + layout.align
            }
            &&& index == 0 ==> layout.offset == 0
        }),
{
    reveal_with_fuel(walked, 2);
    reveal_with_fuel(layout_of_field, 2);
    let (cursor, _) = walked(fields, table, space, depth, index)->0;
    let (align, _) = layout_of_type(fields[index as int].ty, table, space, depth)->0;
    lemma_align_is_positive(fields[index as int].ty, table, space, depth);
    lemma_round_up(cursor, align);
    let layout = layout_of_field(fields, table, space, depth, index)->0;
    assert(layout.offset == round_up(cursor, align));
    assert(layout.align == align);
    if index > 0 {
        let before = layout_of_field(fields, table, space, depth, (index - 1) as nat);
        assert(before is Some);
        assert(cursor == before->0.offset + before->0.size);
    } else {
        assert(cursor == 0);
        assert(round_up(0, align) == 0) by (nonlinear_arith)
            requires
                align >= 1,
        ;
    }
}

/// A layout that is found by following nested structs `depth` deep is found,
/// and is the same, when they are followed deeper: the depth only cuts off
/// structs that hold themselves.
pub proof fn lemma_deeper_type_layout(
    ty: TypeReference,
    table: Seq<StructData>,
    space: LayoutAddressSpace,
    depth: nat,
    deeper: nat,
)
    requires
        depth <= deeper,
        layout_of_type(ty, table, space, depth) is Some,
    ensures
        layout_of_type(ty, table, space, deeper) == layout_of_type(ty, table, space, depth),
    decreases depth, 0nat, 0nat, ty,
{
    reveal_with_fuel(layout_of_type, 2);
    reveal_with_fuel(layout_of_struct, 2);
    match ty {
        TypeReference::Atomic(atomic) => {
            lemma_deeper_type_layout(*atomic.inner, table, space, depth, deeper);
        },
        TypeReference::Array(array) => {
            lemma_deeper_type_layout(*array.inner, table, space, depth, deeper);
        },
        TypeReference::Path(name) => {
            let fields = table[position_of_struct(table, name@)->0].fields@;
            lemma_deeper_walk(
                fields,
                table,
                space,
                (depth - 1) as nat,
                (deeper - 1) as nat,
                fields.len(),
            );
        },
        _ => {},
    }
}

/// A walk over fields that gets through by following nested structs `depth`
/// deep gets through, to the same place, when they are followed deeper.
pub proof fn lemma_deeper_walk(
    fields: Seq<Field>,
    table: Seq<StructData>,
    space: LayoutAddressSpace,
    depth: nat,
    deeper: nat,
    count: nat,
)
    requires
        depth <= deeper,
        walked(fields, table, space, depth, count) is Some,
    ensures
        walked(fields, table, space, deeper, count) == walked(fields, table, space, depth, count),
        count > 0 ==> layout_of_field(fields, table, space, deeper, (count - 1) as nat)
            == layout_of_field(fields, table, space, depth, (count - 1) as nat),
    decreases depth, 1nat, count,
{
    reveal_with_fuel(walked, 2);
    reveal_with_fuel(layout_of_field, 2);
    if count > 0 {
        let last = (count - 1) as nat;
        lemma_deeper_walk(fields, table, space, depth, deeper, last);
        lemma_deeper_type_layout(fields[last as int].ty, table, space, depth, deeper);
    }
}

/// Rounds `n` up to a multiple of `multiple`, where the result fits.
pub fn round_up_bytes(n: Bytes, multiple: Bytes) -> (rounded: Option<Bytes>)
    ensures
        match rounded {
            Some(r) => r == round_up(n as nat, multiple as nat),
            None => round_up(n as nat, multiple as nat) > Bytes::MAX,
        },
{
    if multiple == 0 {
        return Some(n);
    }
    let sum: u64 = n as u64 + multiple as u64 - 1;
    let step: u64 = multiple as u64;
    assert((sum / step) * step <= sum) by (nonlinear_arith)
        requires
            step > 0,
    ;
    let rounded: u64 = (sum / step) * step;
    if rounded > Bytes::MAX as u64 {
        None
    } else {
        Some(rounded as Bytes)
    }
}

/// The position in `table` of the first struct named `name`.
pub fn find_struct(table: &Vec<StructData>, name: &String) -> (position: Option<usize>)
    ensures
        match position {
            Some(p) => position_of_struct(table@, name@) == Some(p as int) && p < table.len(),
            None => position_of_struct(table@, name@) is None,
        },
{
    let mut index: usize = 0;
    while index < table.len()
        invariant
            index <= table.len(),
            position_of_struct(table@, name@) == position_of_struct_from(
                table@,
                name@,
                index as int,
            ),
        decreases table.len() - index,
    {
        if table[index].name == *name {
            return Some(index);
        }
        index += 1;
    }
    None
}

/// The number of components that a dimensionality stands for.
pub fn components(size: VecDimensionality) -> (count: Bytes)
    ensures
        count == component_count(size),
{
    match size {
        VecDimensionality::Two => 2,
        VecDimensionality::Three => 3,
        VecDimensionality::Four => 4,
    }
}

fn stride_bytes(align: Bytes, size: Bytes, space: LayoutAddressSpace) -> (stride: Option<Bytes>)
    ensures
        match stride {
            Some(s) => s == array_stride(align as nat, size as nat, space),
            None => array_stride(align as nat, size as nat, space) > Bytes::MAX,
        },
{
    match round_up_bytes(size, align) {
        Some(stride) => match space {
            LayoutAddressSpace::Storage => Some(stride),
            LayoutAddressSpace::Uniform => round_up_bytes(stride, UNIFORM_ROUNDING),
        },
        None => {
            proof {
                lemma_round_up(round_up(size as nat, align as nat), UNIFORM_ROUNDING as nat);
            }
            None
        },
    }
}

fn times(stride: Bytes, count: u64) -> (size: Option<Bytes>)
    ensures
        match size {
            Some(s) => s == stride * count,
            None => stride * count > Bytes::MAX,
        },
{
    if stride == 0 || count == 0 {
        assert(stride * count == 0) by (nonlinear_arith)
            requires
                stride == 0 || count == 0,
        ;
        Some(0)
    } else if count > Bytes::MAX as u64 {
        assert(stride * count > Bytes::MAX) by (nonlinear_arith)
            requires
                stride >= 1,
                count > Bytes::MAX,
        ;
        None
    } else {
        assert(stride * count <= 0xffff_ffff * 0xffff_ffff) by (nonlinear_arith)
            requires
                stride <= 0xffff_ffff,
                count <= 0xffff_ffff,
        ;
        let product: u64 = stride as u64 * count;
        if product > Bytes::MAX as u64 {
            None
        } else {
            Some(product as Bytes)
        }
    }
}

fn type_layout_within(
    ty: &TypeReference,
    table: &Vec<StructData>,
    space: LayoutAddressSpace,
    depth: usize,
) -> (layout: Option<(Bytes, Bytes)>)
    ensures
        match layout {
            Some((align, size)) => layout_of_type(*ty, table@, space, depth as nat) == Some(
                (align as nat, size as nat),
            ),
            None => layout_of_type(*ty, table@, space, depth as nat) is None,
        },
    decreases depth, 0nat, 0nat, *ty,
{
    match ty {
        TypeReference::Scalar(_) => Some((SCALAR_BYTES, SCALAR_BYTES)),
        TypeReference::Vec(vec) => {
            let align = match vec.size {
                VecDimensionality::Two => 2 * SCALAR_BYTES,
                _ => 4 * SCALAR_BYTES,
            };
            Some((align, components(vec.size) * SCALAR_BYTES))
        },
        TypeReference::Matrix(matrix) => {
            let align = match matrix.rows {
                VecDimensionality::Two => 2 * SCALAR_BYTES,
                _ => 4 * SCALAR_BYTES,
            };
            let column = components(matrix.rows) * SCALAR_BYTES;
            assert(component_count(matrix.columns) * (component_count(matrix.rows) * 4) <= 64)
                by (nonlinear_arith)
                requires
                    component_count(matrix.columns) <= 4,
                    component_count(matrix.rows) <= 4,
            ;
            Some((align, components(matrix.columns) * column))
        },
        TypeReference::Atomic(atomic) => type_layout_within(&atomic.inner, table, space, depth),
        TypeReference::Array(array) => match type_layout_within(&array.inner, table, space, depth) {
            Some((align, size)) => match stride_bytes(align, size, space) {
                Some(stride) => match &array.size {
                    ArraySize::Int(count) => if *count >= 0 {
                        match times(stride, *count as u64) {
                            Some(size) => Some((align, size)),
                            None => None,
                        }
                    } else {
                        None
                    },
                    ArraySize::Uint(count) => match times(stride, *count) {
                        Some(size) => Some((align, size)),
                        None => None,
                    },
                    ArraySize::Path(_) | ArraySize::Dynamic => Some((align, stride)),
                },
                None => None,
            },
            None => None,
        },
        TypeReference::Path(name) => match find_struct(table, name) {
            Some(position) => if depth > 0 {
                struct_layout_within(&table[position].fields, table, space, depth - 1)
            } else {
                None
            },
            None => None,
        },
        _ => None,
    }
}

/// Lays out the field at `index`, given where the walk stands before it.
fn field_layout_within(
    fields: &Vec<Field>,
    table: &Vec<StructData>,
    space: LayoutAddressSpace,
    depth: usize,
    index: usize,
    cursor: Bytes,
    align: Bytes,
) -> (layout: Option<FieldLayout>)
    requires
        index < fields.len(),
        walked(fields@, table@, space, depth as nat, index as nat) == Some(
            (cursor as nat, align as nat),
        ),
    ensures
        layout == layout_of_field(fields@, table@, space, depth as nat, index as nat),
    decreases depth, 1nat,
{
    match type_layout_within(&fields[index].ty, table, space, depth) {
        Some((field_align, size)) => match round_up_bytes(cursor, field_align) {
            Some(offset) => match offset.checked_add(size) {
                Some(_) => Some(FieldLayout { offset, align: field_align, size }),
                None => None,
            },
            None => None,
        },
        None => None,
    }
}

fn struct_layout_within(
    fields: &Vec<Field>,
    table: &Vec<StructData>,
    space: LayoutAddressSpace,
    depth: usize,
) -> (layout: Option<(Bytes, Bytes)>)
    ensures
        match layout {
            Some((align, size)) => layout_of_struct(fields@, table@, space, depth as nat) == Some(
                (align as nat, size as nat),
            ),
            None => layout_of_struct(fields@, table@, space, depth as nat) is None,
        },
    decreases depth, 2nat,
{
    let mut cursor: Bytes = 0;
    let mut align: Bytes = 1;
    let mut index: usize = 0;
    while index < fields.len()
        invariant
            index <= fields.len(),
            walked(fields@, table@, space, depth as nat, index as nat) == Some(
                (cursor as nat, align as nat),
            ),
        decreases fields.len() - index,
    {
        match field_layout_within(fields, table, space, depth, index, cursor, align) {
            Some(layout) => {
                cursor = layout.offset + layout.size;
                if layout.align > align {
                    align = layout.align;
                }
            },
            None => {
                proof {
                    lemma_walk_ends(
                        fields@,
                        table@,
                        space,
                        depth as nat,
                        (index + 1) as nat,
                        fields@.len(),
                    );
                }
                return None;
            },
        }
        index += 1;
    }
    match round_up_bytes(cursor, align) {
        Some(size) => match space {
            LayoutAddressSpace::Storage => Some((align, size)),
            LayoutAddressSpace::Uniform => match round_up_bytes(size, UNIFORM_ROUNDING) {
                Some(size) => Some((align, size)),
                None => None,
            },
        },
        None => {
            proof {
                lemma_round_up(round_up(cursor as nat, align as nat), UNIFORM_ROUNDING as nat);
            }
            None
        },
    }
}

impl TypeReference {
    /// The alignment and the size of the type, or `None` where it has no
    /// layout. Structs are looked up in `table`, and followed through as
    /// many structs nested in one another as the table holds.
    pub fn align_and_size(&self, table: &Vec<StructData>, space: LayoutAddressSpace) -> (layout:
        Option<(Bytes, Bytes)>)
        ensures
            match layout {
                Some((align, size)) => layout_of_type(*self, table@, space, table@.len()) == Some(
                    (align as nat, size as nat),
                ),
                None => layout_of_type(*self, table@, space, table@.len()) is None,
            },
    {
        type_layout_within(self, table, space, table.len())
    }
}

/// The alignment and the size of a struct with these members, or `None`
/// where one of them has no layout.
pub fn struct_layout(fields: &Vec<Field>, table: &Vec<StructData>, space: LayoutAddressSpace) -> (layout:
    Option<(Bytes, Bytes)>)
    ensures
        match layout {
            Some((align, size)) => layout_of_struct(fields@, table@, space, table@.len()) == Some(
                (align as nat, size as nat),
            ),
            None => layout_of_struct(fields@, table@, space, table@.len()) is None,
        },
{
    struct_layout_within(fields, table, space, table.len())
}

/// Whether `visited` is what a pass over `fields` leaves that reports to
/// `on_field`.
///
/// The pass visits the fields in declaration order and reports each with its
/// layout. It goes on while the callback answers `Continue`, and ends after
/// the last field, before the first field that has no layout, or when the
/// callback answers `Stop`.
pub open spec fn is_pass<F: Fn(usize, FieldLayout) -> Visit>(
    on_field: F,
    fields: Seq<Field>,
    table: Seq<StructData>,
    space: LayoutAddressSpace,
    visited: Seq<FieldLayout>,
) -> bool {
    &&& visited.len() <= fields.len()
    &&& forall|i: int|
        0 <= i < visited.len() ==> layout_of_field(fields, table, space, table.len(), i as nat)
            == Some(#[trigger] visited[i])
    &&& forall|i: int|
        0 <= i < visited.len() - 1 ==> call_ensures(
            on_field,
            (i as usize, #[trigger] visited[i]),
            Visit::Continue,
        )
    &&& {
        ||| visited.len() == fields.len()
        ||| layout_of_field(fields, table, space, table.len(), visited.len()) is None
        ||| visited.len() > 0 && call_ensures(
            on_field,
            ((visited.len() - 1) as usize, visited.last()),
            Visit::Stop,
        )
    }
}

/// Lays out the members of a struct one after the other, and reports each,
/// with its position among the fields, to `on_field`. Returns the layouts of
/// the fields that were reported.
pub fn struct_member_layout<F: Fn(usize, FieldLayout) -> Visit>(
    fields: &Vec<Field>,
    table: &Vec<StructData>,
    space: LayoutAddressSpace,
    on_field: F,
) -> (visited: Vec<FieldLayout>)
    requires
        forall|i: usize, layout: FieldLayout|
            layout_of_field(fields@, table@, space, table@.len(), i as nat) == Some(layout)
                ==> call_requires(on_field, (i, layout)),
    ensures
        is_pass(on_field, fields@, table@, space, visited@),
{
    let depth = table.len();
    let mut visited: Vec<FieldLayout> = Vec::new();
    let mut cursor: Bytes = 0;
    let mut align: Bytes = 1;
    let mut index: usize = 0;
    while index < fields.len()
        invariant
            depth == table@.len(),
            index <= fields.len(),
            index == visited.len(),
            walked(fields@, table@, space, depth as nat, index as nat) == Some(
                (cursor as nat, align as nat),
            ),
            forall|i: int|
                0 <= i < visited.len() ==> layout_of_field(
                    fields@,
                    table@,
                    space,
                    depth as nat,
                    i as nat,
                ) == Some(#[trigger] visited[i]),
            forall|i: int|
                0 <= i < visited.len() ==> call_ensures(
                    on_field,
                    (i as usize, #[trigger] visited[i]),
                    Visit::Continue,
                ),
            forall|i: usize, layout: FieldLayout|
                layout_of_field(fields@, table@, space, table@.len(), i as nat) == Some(layout)
                    ==> call_requires(on_field, (i, layout)),
        decreases fields.len() - index,
    {
        let layout = match field_layout_within(fields, table, space, depth, index, cursor, align) {
            Some(layout) => layout,
            None => {
                return visited;
            },
        };
        let answer = on_field(index, layout);
        visited.push(layout);
        match answer {
            Visit::Continue => {},
            Visit::Stop => {
                return visited;
            },
        }
        cursor = layout.offset + layout.size;
        if layout.align > align {
            align = layout.align;
        }
        index += 1;
    }
    visited
}

/// A callback that answers `Stop` to the first field is reported that field
/// and no other, however many fields follow.
pub proof fn lemma_stop_after_first_field<F: Fn(usize, FieldLayout) -> Visit>(
    on_field: F,
    fields: Seq<Field>,
    table: Seq<StructData>,
    space: LayoutAddressSpace,
    visited: Seq<FieldLayout>,
)
    requires
        is_pass(on_field, fields, table, space, visited),
        layout_of_field(fields, table, space, table.len(), 0) is Some,
        forall|layout: FieldLayout, answer: Visit|
            call_ensures(on_field, (0usize, layout), answer) ==> answer == Visit::Stop,
    ensures
        visited.len() == 1,
        Some(visited[0]) == layout_of_field(fields, table, space, table.len(), 0),
{
    if visited.len() >= 2 {
        assert(call_ensures(on_field, (0usize, visited[0]), Visit::Continue));
    }
}

/// A callback that never answers `Stop` is reported every field, where every
/// field has a layout.
pub proof fn lemma_continue_visits_all<F: Fn(usize, FieldLayout) -> Visit>(
    on_field: F,
    fields: Seq<Field>,
    table: Seq<StructData>,
    space: LayoutAddressSpace,
    visited: Seq<FieldLayout>,
)
    requires
        is_pass(on_field, fields, table, space, visited),
        forall|i: nat| i < fields.len() ==> layout_of_field(fields, table, space, table.len(), i)
            is Some,
        forall|i: usize, layout: FieldLayout, answer: Visit|
            call_ensures(on_field, (i, layout), answer) ==> answer == Visit::Continue,
    ensures
        visited.len() == fields.len(),
{
}

} // verus!
