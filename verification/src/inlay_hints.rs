//! Inlay hints: the names of parameters before the arguments of a call, the
//! types of bindings that are declared without one, and the byte offsets of
//! the members of structs.
//!
//! The hints are computed from what has been found out about a file before:
//! the shape of its nodes, the calls that were resolved, the types that were
//! inferred, and the structs with their members.

use vstd::prelude::*;
use crate::layout::{
    Field, FieldLayout, LayoutAddressSpace, StructData, Visit, is_pass, layout_of_field,
    struct_member_layout,
};
use crate::param_names::{hides_param_name_hint, should_hide_param_name_hint};
use crate::render::{decimal_digits, unsigned_to_string};
use crate::syntax::Expression;
use crate::type_ref::TypeReference;

verus! {

/// A range of the source text, from the offset `start` up to the offset
/// `end`.
#[derive(Debug, Clone, Copy, PartialEq, Eq, Hash, Structural)]
pub struct TextRange {
    pub start: u32,
    pub end: u32,
}

impl TextRange {
    /// Whether `other` lies within this range.
    pub open spec fn spec_contains_range(self, other: TextRange) -> bool {
        self.start <= other.start && other.end <= self.end
    }

    #[verifier::when_used_as_spec(spec_contains_range)]
    pub fn contains_range(self, other: TextRange) -> (contains: bool)
        ensures
            contains == self.spec_contains_range(other),
    {
        self.start <= other.start && other.end <= self.end
    }
}

/// Which hints are wanted.
#[derive(Debug, Clone, Copy, PartialEq, Eq, Structural)]
pub struct InlayHintsConfig {
    pub enabled: bool,
    pub type_hints: bool,
    pub parameter_hints: bool,
    pub struct_layout_hints: Option<StructLayoutHints>,
}

/// What a hint on the member of a struct shows.
#[derive(Debug, Clone, Copy, PartialEq, Eq, Structural)]
pub enum StructLayoutHints {
    Offset,
}

#[derive(Debug, Clone, Copy, PartialEq, Eq, Structural)]
pub enum InlayKind {
    TypeHint,
    ParameterHint,
    StructLayoutHint,
}

/// A hint: a label, and the range of the source text that it belongs to.
#[derive(Debug, PartialEq, Eq)]
pub struct InlayHint {
    pub range: TextRange,
    pub kind: InlayKind,
    pub label: String,
}

/// A hint with its label as text.
pub struct InlayHintView {
    pub range: TextRange,
    pub kind: InlayKind,
    pub label: Seq<char>,
}

impl View for InlayHint {
    type V = InlayHintView;

    open spec fn view(&self) -> InlayHintView {
        InlayHintView { range: self.range, kind: self.kind, label: self.label@ }
    }
}

/// The hints of a list, each with its label as text.
pub open spec fn hint_views(hints: Seq<InlayHint>) -> Seq<InlayHintView> {
    hints.map_values(|hint: InlayHint| hint@)
}

/// A function as far as the hints for a call of it need it: the names of its
/// parameters in declaration order, `None` for a parameter whose name is
/// missing.
#[derive(Debug, PartialEq, Eq)]
pub struct FunctionDetails {
    pub parameters: Vec<Option<String>>,
}

/// What a call was found to call.
#[derive(Debug, PartialEq, Eq)]
pub enum ResolvedCall {
    /// A function that the user declared.
    Function(FunctionDetails),
    /// A built-in conversion or constructor; it has no named parameters.
    OtherTypeInitializer,
}

/// An argument of a call: the expression and where it stands.
#[derive(Debug, PartialEq, Eq)]
pub struct Argument {
    pub expression: Expression,
    pub range: TextRange,
}

/// A node of the syntax tree, as far as the hints read it.
#[derive(Debug, PartialEq, Eq)]
pub enum NodeKind {
    /// A call of a function. The arguments are absent where the source is
    /// incomplete, the resolution where the call was not resolved.
    FunctionCall { arguments: Option<Vec<Argument>>, resolved: Option<ResolvedCall> },
    /// A call that is written with the name of a type.
    TypeInitializer { arguments: Option<Vec<Argument>>, resolved: Option<ResolvedCall> },
    /// An expression of another kind.
    OtherExpression,
    /// A declaration of a variable or a constant, local or global, that
    /// binds a name: whether a type is written, the type that was inferred
    /// for the binding, and the range of the name.
    Binding { has_type: bool, inferred: Option<TypeReference>, name_range: Option<TextRange> },
    /// Any other node.
    Other,
}

#[derive(Debug, PartialEq, Eq)]
pub struct SyntaxNode {
    pub range: TextRange,
    pub kind: NodeKind,
}

/// A token of the source text: whether it is white space or a comment, and
/// the offset at which it ends.
#[derive(Debug, Clone, Copy, PartialEq, Eq, Structural)]
pub struct Token {
    pub trivia: bool,
    pub end: u32,
}

/// Where the member of a struct is written: the offset at which its node
/// starts, and the tokens up to the end of the node, in the order of the
/// text. Tokens that come before the node matter only where the node holds
/// nothing but white space and comments.
#[derive(Debug, PartialEq, Eq)]
pub struct FieldSource {
    pub start: u32,
    pub tokens: Vec<Token>,
}

/// A struct of the file: its members, where each is written, if that is
/// known, and whether the struct is used in a uniform binding.
#[derive(Debug, PartialEq, Eq)]
pub struct StructSource {
    pub fields: Vec<Field>,
    pub sources: Vec<Option<FieldSource>>,
    pub used_in_uniform: bool,
}

/// What is limited to a range, and what covers that range.
#[derive(Debug, Clone, Copy, PartialEq, Eq, Structural)]
pub struct RangeLimit {
    pub range: TextRange,
    /// Whether the smallest element of the syntax tree that covers the range
    /// is a token.
    pub within_token: bool,
}

fn push_hint(hints: &mut Vec<InlayHint>, range: TextRange, kind: InlayKind, label: String)
    ensures
        hint_views(final(hints)@) == hint_views(old(hints)@).push(
            InlayHintView { range, kind, label: label@ },
        ),
{
    hints.push(InlayHint { range, kind, label });
    assert(hint_views(hints@) =~= hint_views(old(hints)@).push(
        InlayHintView { range, kind, label: label@ },
    ));
}

/// The hints for the first `count` arguments of a call of a function with
/// these parameters: for each argument the name of its parameter, unless
/// the name is missing or the hint is left out as telling nothing.
pub open spec fn parameter_hints(
    parameters: Seq<Option<String>>,
    arguments: Seq<Argument>,
    count: nat,
) -> Seq<InlayHintView>
    decreases count,
{
    if count == 0 {
        Seq::empty()
    } else {
        let before = parameter_hints(parameters, arguments, (count - 1) as nat);
        let argument = arguments[count - 1];
        match parameters[count - 1] {
            Some(name) => if hides_param_name_hint(parameters.len(), name@, argument.expression) {
                before
            } else {
                before.push(
                    InlayHintView {
                        range: argument.range,
                        kind: InlayKind::ParameterHint,
                        label: name@,
                    },
                )
            },
            None => before,
        }
    }
}

/// The hints for a call: those of its arguments that have a parameter,
/// where the call is one of a function, and none otherwise.
pub open spec fn call_hints(resolved: Option<ResolvedCall>, arguments: Seq<Argument>) -> Seq<
    InlayHintView,
> {
    match resolved {
        Some(ResolvedCall::Function(function)) => parameter_hints(
            function.parameters@,
            arguments,
            if function.parameters@.len() <= arguments.len() {
                function.parameters@.len()
            } else {
                arguments.len()
            },
        ),
        _ => Seq::empty(),
    }
}

/// Adds the hints for a call to `hints`. Returns `None`, and adds nothing,
/// where the call is not resolved or is no call of a function.
pub fn function_hints(
    resolved: &Option<ResolvedCall>,
    arguments: &Vec<Argument>,
    hints: &mut Vec<InlayHint>,
) -> (done: Option<()>)
    ensures
        hint_views(final(hints)@) == hint_views(old(hints)@) + call_hints(*resolved, arguments@),
        done is Some <==> *resolved matches Some(ResolvedCall::Function(_)),
{
    let function = match resolved {
        Some(ResolvedCall::Function(function)) => function,
        _ => {
            assert(hint_views(hints@) =~= hint_views(hints@) + Seq::<InlayHintView>::empty());
            return None;
        },
    };
    let count = if function.parameters.len() <= arguments.len() {
        function.parameters.len()
    } else {
        arguments.len()
    };
    let mut index: usize = 0;
    assert(hint_views(hints@) =~= hint_views(hints@) + Seq::<InlayHintView>::empty());
    while index < count
        invariant
            index <= count,
            count <= function.parameters.len(),
            count <= arguments.len(),
            hint_views(hints@) == hint_views(old(hints)@) + parameter_hints(
                function.parameters@,
                arguments@,
                index as nat,
            ),
        decreases count - index,
    {
        match &function.parameters[index] {
            Some(name) => {
                if !should_hide_param_name_hint(
                    function.parameters.len(),
                    name.as_str(),
                    &arguments[index].expression,
                ) {
                    push_hint(
                        hints,
                        arguments[index].range,
                        InlayKind::ParameterHint,
                        name.clone(),
                    );
                }
            },
            None => {},
        }
        index += 1;
        assert(hint_views(hints@) =~= hint_views(old(hints)@) + parameter_hints(
            function.parameters@,
            arguments@,
            index as nat,
        ));
    }
    Some(())
}

/// The hints that a node gives rise to: before the arguments of a call,
/// where hints for parameters are wanted, and after the name of a binding
/// that is declared without a type, where hints for types are wanted and a
/// type was inferred.
pub open spec fn node_hints(config: InlayHintsConfig, kind: NodeKind) -> Seq<InlayHintView> {
    match kind {
        NodeKind::FunctionCall { arguments: Some(arguments), resolved } => if config.parameter_hints {
            call_hints(resolved, arguments@)
        } else {
            Seq::empty()
        },
        NodeKind::TypeInitializer { arguments: Some(arguments), resolved } => if config.parameter_hints {
            call_hints(resolved, arguments@)
        } else {
            Seq::empty()
        },
        NodeKind::Binding { has_type, inferred: Some(ty), name_range: Some(range) } => if config.type_hints
            && !has_type {
            seq![InlayHintView { range, kind: InlayKind::TypeHint, label: ty.spelling() }]
        } else {
            Seq::empty()
        },
        _ => Seq::empty(),
    }
}

/// Whether a node was gone through to the end: a call, where hints for
/// parameters are wanted, its arguments are present and it is a resolved
/// call of a function; a binding, where hints for types are wanted and it
/// has a type or a hint; any other node.
pub open spec fn node_is_done(config: InlayHintsConfig, kind: NodeKind) -> bool {
    match kind {
        NodeKind::FunctionCall { arguments, resolved } => config.parameter_hints && arguments is Some
            && resolved matches Some(ResolvedCall::Function(_)),
        NodeKind::TypeInitializer { arguments, resolved } => config.parameter_hints
            && arguments is Some && resolved matches Some(ResolvedCall::Function(_)),
        NodeKind::Binding { has_type, inferred, name_range } => config.type_hints && (has_type || (
        inferred is Some && name_range is Some)),
        _ => true,
    }
}

/// Adds the hints that a node gives rise to.
pub fn get_hints(hints: &mut Vec<InlayHint>, config: &InlayHintsConfig, node: &SyntaxNode) -> (done:
    Option<()>)
    ensures
        hint_views(final(hints)@) == hint_views(old(hints)@) + node_hints(*config, node.kind),
        done is Some <==> node_is_done(*config, node.kind),
{
    assert(hint_views(hints@) =~= hint_views(hints@) + Seq::<InlayHintView>::empty());
    match &node.kind {
        NodeKind::FunctionCall { arguments, resolved } => {
            if !config.parameter_hints {
                return None;
            }
            match arguments {
                Some(arguments) => function_hints(resolved, arguments, hints),
                None => None,
            }
        },
        NodeKind::TypeInitializer { arguments, resolved } => {
            if !config.parameter_hints {
                return None;
            }
            match arguments {
                Some(arguments) => function_hints(resolved, arguments, hints),
                None => None,
            }
        },
        NodeKind::Binding { has_type, inferred, name_range } => {
            if !config.type_hints {
                return None;
            }
            if !*has_type {
                let label = match inferred {
                    Some(ty) => ty.to_string(),
                    None => {
                        return None;
                    },
                };
                let range = match name_range {
                    Some(range) => *range,
                    None => {
                        return None;
                    },
                };
                push_hint(hints, range, InlayKind::TypeHint, label);
                assert(hint_views(hints@) =~= hint_views(old(hints)@) + node_hints(
                    *config,
                    node.kind,
                ));
            }
            Some(())
        },
        _ => Some(()),
    }
}

/// The last token among `tokens` that is neither white space nor a comment.
pub open spec fn last_solid_token(tokens: Seq<Token>) -> Option<Token>
    decreases tokens.len(),
{
    if tokens.len() == 0 {
        None
    } else if !tokens.last().trivia {
        Some(tokens.last())
    } else {
        last_solid_token(tokens.drop_last())
    }
}

/// The range that the hint of the member at `index` belongs to: from the
/// start of the member to the end of its last token that is neither white
/// space nor a comment. `None` where it is not known where the member is
/// written, or where it has no such token.
pub open spec fn field_range(sources: Seq<Option<FieldSource>>, index: int) -> Option<TextRange> {
    if 0 <= index < sources.len() {
        match sources[index] {
            Some(source) => match last_solid_token(source.tokens@) {
                Some(token) => Some(TextRange { start: source.start, end: token.end }),
                None => None,
            },
            None => None,
        }
    } else {
        None
    }
}

/// The hint on the member at `index`: its offset in decimal.
pub open spec fn field_hint(source: StructSource, table: Seq<StructData>, index: nat) -> Option<
    InlayHintView,
> {
    match (
        layout_of_field(source.fields@, table, address_space(source), table.len(), index),
        field_range(source.sources@, index as int),
    ) {
        (Some(layout), Some(range)) => Some(
            InlayHintView {
                range,
                kind: InlayKind::StructLayoutHint,
                label: decimal_digits(layout.offset as nat),
            },
        ),
        _ => None,
    }
}

/// The address space that a struct is laid out for: the uniform address
/// space where it is used in a uniform binding, the storage address space
/// otherwise.
pub open spec fn address_space(source: StructSource) -> LayoutAddressSpace {
    if source.used_in_uniform {
        LayoutAddressSpace::Uniform
    } else {
        LayoutAddressSpace::Storage
    }
}

/// The hints on the first `count` members of a struct: one on each member,
/// up to the first member that has no layout or no range.
pub open spec fn struct_hints(source: StructSource, table: Seq<StructData>, count: nat) -> Seq<
    InlayHintView,
>
    decreases count,
{
    if count == 0 {
        Seq::empty()
    } else {
        let before = struct_hints(source, table, (count - 1) as nat);
        match field_hint(source, table, (count - 1) as nat) {
            Some(hint) => if before.len() == count - 1 {
                before.push(hint)
            } else {
                before
            },
            None => before,
        }
    }
}

/// The hints on the members of the first `count` structs.
pub open spec fn struct_layout_hints(structs: Seq<StructSource>, table: Seq<StructData>, count: nat) -> Seq<
    InlayHintView,
>
    decreases count,
{
    if count == 0 {
        Seq::empty()
    } else {
        struct_layout_hints(structs, table, (count - 1) as nat) + struct_hints(
            structs[count - 1],
            table,
            structs[count - 1].fields@.len(),
        )
    }
}

/// No member has a hint after the first member that has none.
pub proof fn lemma_struct_hints_end(source: StructSource, table: Seq<StructData>, count: nat, later: nat)
    requires
        count <= later,
        struct_hints(source, table, count).len() < count,
    ensures
        struct_hints(source, table, later) == struct_hints(source, table, count),
    decreases later,
{
    if count < later {
        lemma_struct_hints_end(source, table, count, (later - 1) as nat);
    }
}

/// There are no more hints than members.
pub proof fn lemma_struct_hints_len(source: StructSource, table: Seq<StructData>, count: nat)
    ensures
        struct_hints(source, table, count).len() <= count,
    decreases count,
{
    if count > 0 {
        lemma_struct_hints_len(source, table, (count - 1) as nat);
    }
}

fn solid_end(tokens: &Vec<Token>) -> (end: Option<u32>)
    ensures
        match end {
            Some(end) => last_solid_token(tokens@) matches Some(token) && token.end == end,
            None => last_solid_token(tokens@) is None,
        },
{
    let mut index: usize = tokens.len();
    assert(tokens@.take(index as int) =~= tokens@);
    while index > 0
        invariant
            index <= tokens.len(),
            last_solid_token(tokens@) == last_solid_token(tokens@.take(index as int)),
        decreases index,
    {
        index -= 1;
        assert(tokens@.take(index + 1).drop_last() =~= tokens@.take(index as int));
        if !tokens[index].trivia {
            return Some(tokens[index].end);
        }
    }
    None
}

/// The range that the hint of the member at `index` belongs to.
pub fn range_of_field(sources: &Vec<Option<FieldSource>>, index: usize) -> (range: Option<TextRange>)
    ensures
        range == field_range(sources@, index as int),
{
    if index >= sources.len() {
        return None;
    }
    match &sources[index] {
        Some(source) => match solid_end(&source.tokens) {
            Some(end) => Some(TextRange { start: source.start, end }),
            None => None,
        },
        None => None,
    }
}

/// Adds a hint to each member of a struct: the byte offset of the member.
/// The members are gone through in declaration order, up to the first that
/// has no layout, or of which it is not known where it is written.
pub fn add_struct_hints(hints: &mut Vec<InlayHint>, source: &StructSource, table: &Vec<StructData>)
    ensures
        hint_views(final(hints)@) == hint_views(old(hints)@) + struct_hints(
            *source,
            table@,
            source.fields@.len(),
        ),
{
    let space = if source.used_in_uniform {
        LayoutAddressSpace::Uniform
    } else {
        LayoutAddressSpace::Storage
    };
    let sources = &source.sources;
    let on_field = |index: usize, layout: FieldLayout| -> (answer: Visit)
        ensures
            answer == Visit::Continue <==> field_range(sources@, index as int) is Some,
        {
            match range_of_field(sources, index) {
                Some(_) => Visit::Continue,
                None => Visit::Stop,
            }
        };
    let visited = struct_member_layout(&source.fields, table, space, on_field);
    let mut index: usize = 0;
    assert(hint_views(hints@) =~= hint_views(hints@) + Seq::<InlayHintView>::empty());
    while index < visited.len()
        invariant
            index <= visited.len(),
            space == address_space(*source),
            sources == &source.sources,
            is_pass(on_field, source.fields@, table@, space, visited@),
            forall|i: usize, layout: FieldLayout, answer: Visit|
                call_ensures(on_field, (i, layout), answer) ==> (answer == Visit::Continue
                    <==> field_range(sources@, i as int) is Some),
            struct_hints(*source, table@, index as nat).len() == index,
            hint_views(hints@) == hint_views(old(hints)@) + struct_hints(
                *source,
                table@,
                index as nat,
            ),
        decreases visited.len() - index,
    {
        match range_of_field(sources, index) {
            Some(range) => {
                push_hint(
                    hints,
                    range,
                    InlayKind::StructLayoutHint,
                    unsigned_to_string(visited[index].offset as u64),
                );
                assert(field_hint(*source, table@, index as nat) == Some(
                    InlayHintView {
                        range,
                        kind: InlayKind::StructLayoutHint,
                        label: decimal_digits(visited@[index as int].offset as nat),
                    },
                ));
                assert(hint_views(hints@) =~= hint_views(old(hints)@) + struct_hints(
                    *source,
                    table@,
                    (index + 1) as nat,
                ));
            },
            None => {
                proof {
                    assert(field_hint(*source, table@, index as nat) is None);
                    assert(struct_hints(*source, table@, (index + 1) as nat) == struct_hints(
                        *source,
                        table@,
                        index as nat,
                    ));
                    lemma_struct_hints_end(
                        *source,
                        table@,
                        (index + 1) as nat,
                        source.fields@.len(),
                    );
                }
                return ;
            },
        }
        index += 1;
    }
    proof {
        let count = visited@.len();
        if count < source.fields@.len() {
            if count > 0 {
                // The last member that was visited has a hint, so the callback
                // did not answer `Stop` to it.
                lemma_struct_hints_len(*source, table@, (count - 1) as nat);
                assert(field_hint(*source, table@, (count - 1) as nat) is Some);
            }
            assert(field_hint(*source, table@, count) is None);
            assert(struct_hints(*source, table@, count + 1) == struct_hints(*source, table@, count));
            lemma_struct_hints_end(*source, table@, count + 1, source.fields@.len());
        }
    }
}

/// Adds the hints on the members of the structs of a file, where such hints
/// are wanted. Returns `None`, and adds nothing, where they are not.
pub fn get_struct_layout_hints(
    hints: &mut Vec<InlayHint>,
    structs: &Vec<StructSource>,
    table: &Vec<StructData>,
    config: &InlayHintsConfig,
) -> (done: Option<()>)
    ensures
        done is Some <==> config.struct_layout_hints is Some,
        hint_views(final(hints)@) == hint_views(old(hints)@) + if config.struct_layout_hints
            is Some {
            struct_layout_hints(structs@, table@, structs@.len())
        } else {
            Seq::empty()
        },
{
    assert(hint_views(hints@) =~= hint_views(hints@) + Seq::<InlayHintView>::empty());
    match config.struct_layout_hints {
        Some(StructLayoutHints::Offset) => {},
        None => {
            return None;
        },
    }
    let mut index: usize = 0;
    while index < structs.len()
        invariant
            index <= structs.len(),
            hint_views(hints@) == hint_views(old(hints)@) + struct_layout_hints(
                structs@,
                table@,
                index as nat,
            ),
        decreases structs.len() - index,
    {
        add_struct_hints(hints, &structs[index], table);
        index += 1;
        assert(hint_views(hints@) =~= hint_views(old(hints)@) + struct_layout_hints(
            structs@,
            table@,
            index as nat,
        ));
    }
    Some(())
}

/// Whether a node is looked at: every node where there is no limit, and
/// with a limit the nodes that lie within its range.
pub open spec fn within_limit(range_limit: Option<RangeLimit>, node: SyntaxNode) -> bool {
    match range_limit {
        Some(limit) => limit.range.spec_contains_range(node.range),
        None => true,
    }
}

/// The hints of the first `count` nodes, in the order of the nodes.
pub open spec fn nodes_hints(
    nodes: Seq<SyntaxNode>,
    range_limit: Option<RangeLimit>,
    config: InlayHintsConfig,
    count: nat,
) -> Seq<InlayHintView>
    decreases count,
{
    if count == 0 {
        Seq::empty()
    } else {
        let before = nodes_hints(nodes, range_limit, config, (count - 1) as nat);
        if within_limit(range_limit, nodes[count - 1]) {
            before + node_hints(config, nodes[count - 1].kind)
        } else {
            before
        }
    }
}

/// The hints of a file: none where the range that they are limited to lies
/// within one token; else those of the nodes, followed by those on the
/// members of the structs where such hints are wanted.
pub open spec fn file_hints(
    nodes: Seq<SyntaxNode>,
    structs: Seq<StructSource>,
    table: Seq<StructData>,
    range_limit: Option<RangeLimit>,
    config: InlayHintsConfig,
) -> Seq<InlayHintView> {
    if range_limit matches Some(limit) && limit.within_token {
        Seq::empty()
    } else {
        nodes_hints(nodes, range_limit, config, nodes.len()) + if config.struct_layout_hints
            is Some {
            struct_layout_hints(structs, table, structs.len())
        } else {
            Seq::empty()
        }
    }
}

/// The inlay hints of a file.
///
/// `nodes` are the nodes of the file in the order of the text; where the
/// hints are limited to a range, the descendants of the smallest node that
/// covers it. `structs` are the structs that the file declares, and `table`
/// holds the structs that their members may name.
pub fn inlay_hints(
    nodes: &Vec<SyntaxNode>,
    structs: &Vec<StructSource>,
    table: &Vec<StructData>,
    range_limit: Option<RangeLimit>,
    config: &InlayHintsConfig,
) -> (hints: Vec<InlayHint>)
    ensures
        hint_views(hints@) == file_hints(nodes@, structs@, table@, range_limit, *config),
{
    let mut hints: Vec<InlayHint> = Vec::new();
    assert(hint_views(hints@) =~= Seq::<InlayHintView>::empty());
    if let Some(limit) = range_limit {
        if limit.within_token {
            return hints;
        }
    }
    let mut index: usize = 0;
    while index < nodes.len()
        invariant
            index <= nodes.len(),
            hint_views(hints@) == nodes_hints(nodes@, range_limit, *config, index as nat),
        decreases nodes.len() - index,
    {
        let wanted = match range_limit {
            Some(limit) => limit.range.contains_range(nodes[index].range),
            None => true,
        };
        if wanted {
            let _ = get_hints(&mut hints, config, &nodes[index]);
        }
        index += 1;
    }
    let _ = get_struct_layout_hints(&mut hints, structs, table, config);
    hints
}

} // verus!
