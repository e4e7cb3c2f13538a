use wgsl_sema::inlay_hints::{
    add_struct_hints, function_hints, get_hints, get_struct_layout_hints, inlay_hints,
    range_of_field, Argument, FieldSource, FunctionDetails, InlayHint, InlayHintsConfig,
    InlayKind, NodeKind, RangeLimit, ResolvedCall, StructLayoutHints, StructSource, SyntaxNode,
    TextRange, Token,
};
use wgsl_sema::layout::{Field, StructData};
use wgsl_sema::param_names::{
    compare_ignore_case_convention, get_string_representation,
    is_argument_similar_to_param_name, is_obvious_parameter, should_hide_param_name_hint,
};
use wgsl_sema::syntax::Expression;
use wgsl_sema::text::chars_of;
use wgsl_sema::type_ref::{ScalarType, TypeReference, VecDimensionality, VecType};

fn path(name: &str) -> Expression {
    Expression::Path(Some(name.to_string()))
}

fn range(start: u32, end: u32) -> TextRange {
    TextRange { start, end }
}

fn argument(expression: Expression, start: u32, end: u32) -> Argument {
    Argument { expression, range: range(start, end) }
}

fn function(names: &[&str]) -> Option<ResolvedCall> {
    Some(ResolvedCall::Function(FunctionDetails {
        parameters: names.iter().map(|name| Some(name.to_string())).collect(),
    }))
}

fn hint(start: u32, end: u32, kind: InlayKind, label: &str) -> InlayHint {
    InlayHint { range: range(start, end), kind, label: label.to_string() }
}

fn config() -> InlayHintsConfig {
    InlayHintsConfig {
        enabled: true,
        type_hints: true,
        parameter_hints: true,
        struct_layout_hints: Some(StructLayoutHints::Offset),
    }
}

fn f32_type() -> TypeReference {
    TypeReference::Scalar(ScalarType::Float32)
}

#[test]
fn the_only_parameter_named_value_gets_no_hint() {
    let mut hints = Vec::new();
    let done = function_hints(&function(&["value"]), &vec![argument(path("value"), 2, 7)], &mut hints);
    assert_eq!(done, Some(()));
    assert_eq!(hints, vec![]);
    let mut hints = Vec::new();
    function_hints(&function(&["value"]), &vec![argument(Expression::Other, 2, 7)], &mut hints);
    assert_eq!(hints, vec![]);
}

#[test]
fn the_same_name_in_another_convention_gets_no_hint() {
    let mut hints = Vec::new();
    function_hints(&function(&["some_value"]), &vec![argument(path("someValue"), 2, 11)], &mut hints);
    assert_eq!(hints, vec![]);
}

#[test]
fn another_name_gets_a_hint() {
    let mut hints = Vec::new();
    let done = function_hints(&function(&["count"]), &vec![argument(path("other"), 2, 7)], &mut hints);
    assert_eq!(done, Some(()));
    assert_eq!(hints, vec![hint(2, 7, InlayKind::ParameterHint, "count")]);
}

#[test]
fn a_type_initializer_gets_no_hints() {
    let mut hints = vec![hint(0, 1, InlayKind::TypeHint, "f32")];
    let arguments = vec![argument(path("other"), 2, 7)];
    assert_eq!(function_hints(&Some(ResolvedCall::OtherTypeInitializer), &arguments, &mut hints), None);
    assert_eq!(function_hints(&None, &arguments, &mut hints), None);
    assert_eq!(hints, vec![hint(0, 1, InlayKind::TypeHint, "f32")]);
}

#[test]
fn hints_pair_parameters_with_arguments_in_order() {
    let resolved = Some(ResolvedCall::Function(FunctionDetails {
        parameters: vec![
            Some("first".to_string()),
            None,
            Some("third".to_string()),
            Some("fourth".to_string()),
            Some("fifth".to_string()),
        ],
    }));
    let arguments = vec![
        argument(Expression::Other, 0, 1),
        argument(Expression::Other, 2, 3),
        argument(path("third"), 4, 9),
        argument(path("x"), 10, 11),
    ];
    let mut hints = vec![hint(90, 91, InlayKind::TypeHint, "u32")];
    function_hints(&resolved, &arguments, &mut hints);
    assert_eq!(
        hints,
        vec![
            hint(90, 91, InlayKind::TypeHint, "u32"),
            hint(0, 1, InlayKind::ParameterHint, "first"),
            hint(10, 11, InlayKind::ParameterHint, "fourth"),
        ]
    );
    let mut hints = Vec::new();
    function_hints(&function(&["a"]), &vec![argument(Expression::Other, 0, 1), argument(Expression::Other, 2, 3)], &mut hints);
    assert_eq!(hints, vec![]);
    let mut hints = Vec::new();
    function_hints(&function(&["a", "b"]), &vec![argument(Expression::Other, 0, 1), argument(Expression::Other, 2, 3)], &mut hints);
    assert_eq!(
        hints,
        vec![hint(0, 1, InlayKind::ParameterHint, "a"), hint(2, 3, InlayKind::ParameterHint, "b")]
    );
}

#[test]
fn obvious_parameters() {
    assert!(is_obvious_parameter("x"));
    assert!(is_obvious_parameter("_"));
    assert!(is_obvious_parameter("value"));
    assert!(is_obvious_parameter("predicate"));
    assert!(!is_obvious_parameter(""));
    assert!(!is_obvious_parameter("xy"));
    assert!(!is_obvious_parameter("Value"));
    assert!(!is_obvious_parameter("values"));
    assert!(should_hide_param_name_hint(1, "x", &Expression::Other));
    assert!(!should_hide_param_name_hint(2, "x", &Expression::Other));
    assert!(!should_hide_param_name_hint(0, "value", &Expression::Other));
    assert!(should_hide_param_name_hint(2, "count", &path("count")));
}

#[test]
fn names_in_two_conventions() {
    assert!(compare_ignore_case_convention("someValue", "some_value"));
    assert!(compare_ignore_case_convention("SOME_VALUE", "someValue"));
    assert!(compare_ignore_case_convention("__a_b__", "AB"));
    assert!(compare_ignore_case_convention("", "___"));
    assert!(!compare_ignore_case_convention("some", "some_value"));
    assert!(!compare_ignore_case_convention("some_value", "some"));
    assert!(!compare_ignore_case_convention("other", "count"));
    assert!(!compare_ignore_case_convention("a1", "a2"));
    assert!(!compare_ignore_case_convention("\u{e9}", "\u{c9}"));
}

#[test]
fn argument_similar_to_the_name() {
    let similar = |argument: &str, param_name: &str| is_argument_similar_to_param_name(&path(argument), param_name);
    assert!(similar("count", "count"));
    assert!(similar("COUNT", "count"));
    assert!(similar("_count", "count"));
    assert!(similar("count", "__count"));
    assert!(similar("count_total", "count"));
    assert!(similar("total_count", "count"));
    assert!(similar("Count_total", "cOunt"));
    assert!(similar("someValue", "some_value"));
    assert!(similar("foox_foo", "foo"));
    assert!(!similar("counter", "count"));
    assert!(!similar("recount", "count"));
    assert!(!similar("other", "count"));
    assert!(!similar("c", "count"));
    assert!(!similar("foobar", "foo"));
    assert!(!similar("", "count"));
}

#[test]
fn only_names_stand_for_an_expression() {
    assert_eq!(get_string_representation(&path("a")), Some("a".to_string()));
    assert_eq!(get_string_representation(&Expression::Field(Some("xyz".to_string()))), Some("xyz".to_string()));
    let negated = Expression::Prefix(Some(Box::new(Expression::Prefix(Some(Box::new(path("count")))))));
    assert_eq!(get_string_representation(&negated), Some("count".to_string()));
    assert_eq!(get_string_representation(&Expression::Other), None);
    assert_eq!(get_string_representation(&Expression::Path(None)), None);
    assert_eq!(get_string_representation(&Expression::Field(None)), None);
    assert_eq!(get_string_representation(&Expression::Prefix(None)), None);
    assert_eq!(get_string_representation(&Expression::Prefix(Some(Box::new(Expression::Other)))), None);
    assert!(is_argument_similar_to_param_name(&negated, "count"));
    assert!(is_argument_similar_to_param_name(&Expression::Field(Some("count".to_string())), "count"));
    assert!(!is_argument_similar_to_param_name(&Expression::Other, "count"));
    assert!(!is_argument_similar_to_param_name(&Expression::Other, ""));
}

#[test]
fn characters_of_a_text() {
    assert_eq!(chars_of(""), Vec::<char>::new());
    assert_eq!(chars_of("a\u{e9}_"), vec!['a', '\u{e9}', '_']);
}

#[test]
fn ranges_within_ranges() {
    assert!(range(2, 9).contains_range(range(2, 9)));
    assert!(range(2, 9).contains_range(range(3, 4)));
    assert!(range(2, 9).contains_range(range(5, 5)));
    assert!(!range(2, 9).contains_range(range(1, 4)));
    assert!(!range(2, 9).contains_range(range(5, 10)));
}

fn call(names: &[&str], arguments: Vec<Argument>, start: u32, end: u32) -> SyntaxNode {
    SyntaxNode {
        range: range(start, end),
        kind: NodeKind::FunctionCall { arguments: Some(arguments), resolved: function(names) },
    }
}

fn binding(has_type: bool, inferred: Option<TypeReference>, name_range: Option<TextRange>) -> SyntaxNode {
    SyntaxNode { range: range(0, 20), kind: NodeKind::Binding { has_type, inferred, name_range } }
}

#[test]
fn hints_of_a_call_node() {
    let node = call(&["count", "scale"], vec![argument(path("other"), 2, 7), argument(path("scale"), 9, 14)], 0, 15);
    let mut hints = Vec::new();
    assert_eq!(get_hints(&mut hints, &config(), &node), Some(()));
    assert_eq!(hints, vec![hint(2, 7, InlayKind::ParameterHint, "count")]);
    let mut hints = Vec::new();
    let off = InlayHintsConfig { parameter_hints: false, ..config() };
    assert_eq!(get_hints(&mut hints, &off, &node), None);
    assert_eq!(hints, vec![]);
}

#[test]
fn hints_of_a_type_initializer_node() {
    let arguments = || Some(vec![argument(path("other"), 2, 7)]);
    let node = SyntaxNode {
        range: range(0, 8),
        kind: NodeKind::TypeInitializer { arguments: arguments(), resolved: Some(ResolvedCall::OtherTypeInitializer) },
    };
    let mut hints = Vec::new();
    assert_eq!(get_hints(&mut hints, &config(), &node), None);
    assert_eq!(hints, vec![]);
    let node = SyntaxNode {
        range: range(0, 8),
        kind: NodeKind::TypeInitializer { arguments: arguments(), resolved: function(&["count"]) },
    };
    assert_eq!(get_hints(&mut hints, &config(), &node), Some(()));
    assert_eq!(hints, vec![hint(2, 7, InlayKind::ParameterHint, "count")]);
}

#[test]
fn a_call_without_arguments_or_resolution_gets_nothing() {
    let mut hints = Vec::new();
    let node = SyntaxNode {
        range: range(0, 8),
        kind: NodeKind::FunctionCall { arguments: None, resolved: function(&["count"]) },
    };
    assert_eq!(get_hints(&mut hints, &config(), &node), None);
    let node = SyntaxNode {
        range: range(0, 8),
        kind: NodeKind::FunctionCall { arguments: Some(vec![argument(path("other"), 2, 7)]), resolved: None },
    };
    assert_eq!(get_hints(&mut hints, &config(), &node), None);
    assert_eq!(hints, vec![]);
}

#[test]
fn hints_of_a_binding_node() {
    let vec3 = || TypeReference::Vec(VecType { size: VecDimensionality::Three, inner: Box::new(f32_type()) });
    let mut hints = Vec::new();
    assert_eq!(get_hints(&mut hints, &config(), &binding(false, Some(vec3()), Some(range(4, 9)))), Some(()));
    assert_eq!(hints, vec![hint(4, 9, InlayKind::TypeHint, "vec3<f32>")]);
    let mut hints = Vec::new();
    assert_eq!(get_hints(&mut hints, &config(), &binding(true, Some(vec3()), Some(range(4, 9)))), Some(()));
    assert_eq!(get_hints(&mut hints, &config(), &binding(false, None, Some(range(4, 9)))), None);
    assert_eq!(get_hints(&mut hints, &config(), &binding(false, Some(vec3()), None)), None);
    let off = InlayHintsConfig { type_hints: false, ..config() };
    assert_eq!(get_hints(&mut hints, &off, &binding(false, Some(vec3()), Some(range(4, 9)))), None);
    assert_eq!(get_hints(&mut hints, &off, &binding(true, None, None)), None);
    assert_eq!(hints, vec![]);
}

#[test]
fn other_nodes_get_nothing() {
    let mut hints = Vec::new();
    let off = InlayHintsConfig { enabled: false, type_hints: false, parameter_hints: false, struct_layout_hints: None };
    for kind in [NodeKind::OtherExpression, NodeKind::Other] {
        let node = SyntaxNode { range: range(0, 1), kind };
        assert_eq!(get_hints(&mut hints, &off, &node), Some(()));
    }
    assert_eq!(hints, vec![]);
}

fn token(trivia: bool, end: u32) -> Token {
    Token { trivia, end }
}

fn source(start: u32, tokens: Vec<Token>) -> Option<FieldSource> {
    Some(FieldSource { start, tokens })
}

fn two_floats(used_in_uniform: bool, sources: Vec<Option<FieldSource>>) -> StructSource {
    StructSource {
        fields: vec![
            Field { name: "a".to_string(), ty: f32_type() },
            Field { name: "b".to_string(), ty: TypeReference::Vec(VecType { size: VecDimensionality::Four, inner: Box::new(f32_type()) }) },
            Field { name: "c".to_string(), ty: f32_type() },
        ],
        sources,
        used_in_uniform,
    }
}

#[test]
fn the_range_of_a_field_ends_at_its_last_solid_token() {
    let sources = vec![
        source(10, vec![token(false, 11), token(false, 12), token(true, 13), token(false, 16), token(false, 17), token(true, 22)]),
        source(22, vec![token(true, 23), token(true, 30)]),
        None,
        source(40, vec![]),
        source(50, vec![token(false, 58)]),
    ];
    assert_eq!(range_of_field(&sources, 0), Some(range(10, 17)));
    assert_eq!(range_of_field(&sources, 1), None);
    assert_eq!(range_of_field(&sources, 2), None);
    assert_eq!(range_of_field(&sources, 3), None);
    assert_eq!(range_of_field(&sources, 4), Some(range(50, 58)));
    assert_eq!(range_of_field(&sources, 5), None);
}

#[test]
fn offsets_of_the_members_of_a_struct() {
    let sources = vec![
        source(10, vec![token(false, 16), token(true, 20)]),
        source(20, vec![token(false, 32), token(true, 36)]),
        source(36, vec![token(false, 42)]),
    ];
    let mut hints = vec![hint(0, 1, InlayKind::TypeHint, "u32")];
    add_struct_hints(&mut hints, &two_floats(false, sources), &vec![]);
    assert_eq!(
        hints,
        vec![
            hint(0, 1, InlayKind::TypeHint, "u32"),
            hint(10, 16, InlayKind::StructLayoutHint, "0"),
            hint(20, 32, InlayKind::StructLayoutHint, "16"),
            hint(36, 42, InlayKind::StructLayoutHint, "32"),
        ]
    );
}

#[test]
fn the_hints_of_a_struct_end_at_a_member_without_a_range() {
    let mut hints = Vec::new();
    let sources = vec![source(10, vec![token(false, 16)]), None, source(36, vec![token(false, 42)])];
    add_struct_hints(&mut hints, &two_floats(false, sources), &vec![]);
    assert_eq!(hints, vec![hint(10, 16, InlayKind::StructLayoutHint, "0")]);
    let mut hints = Vec::new();
    add_struct_hints(&mut hints, &two_floats(false, vec![source(10, vec![token(false, 16)])]), &vec![]);
    assert_eq!(hints, vec![hint(10, 16, InlayKind::StructLayoutHint, "0")]);
    let mut hints = Vec::new();
    add_struct_hints(&mut hints, &two_floats(false, vec![source(10, vec![token(true, 16)])]), &vec![]);
    assert_eq!(hints, vec![]);
}

fn nested_source(used_in_uniform: bool) -> (StructSource, Vec<StructData>) {
    let table = vec![StructData {
        name: "Small".to_string(),
        fields: vec![Field { name: "x".to_string(), ty: f32_type() }],
    }];
    let structure = StructSource {
        fields: vec![
            Field { name: "a".to_string(), ty: TypeReference::Path("Small".to_string()) },
            Field { name: "b".to_string(), ty: f32_type() },
            Field { name: "c".to_string(), ty: TypeReference::Error },
            Field { name: "d".to_string(), ty: f32_type() },
        ],
        sources: vec![
            source(0, vec![token(false, 5)]),
            source(6, vec![token(false, 9)]),
            source(10, vec![token(false, 12)]),
            source(13, vec![token(false, 15)]),
        ],
        used_in_uniform,
    };
    (structure, table)
}

#[test]
fn a_struct_used_in_a_uniform_binding_is_laid_out_for_it() {
    let (structure, table) = nested_source(false);
    let mut hints = Vec::new();
    assert_eq!(get_struct_layout_hints(&mut hints, &vec![structure], &table, &config()), Some(()));
    assert_eq!(
        hints,
        vec![hint(0, 5, InlayKind::StructLayoutHint, "0"), hint(6, 9, InlayKind::StructLayoutHint, "4")]
    );
    let (structure, table) = nested_source(true);
    let mut hints = Vec::new();
    get_struct_layout_hints(&mut hints, &vec![structure], &table, &config());
    assert_eq!(
        hints,
        vec![hint(0, 5, InlayKind::StructLayoutHint, "0"), hint(6, 9, InlayKind::StructLayoutHint, "16")]
    );
}

#[test]
fn struct_hints_only_where_wanted() {
    let (structure, table) = nested_source(false);
    let mut hints = vec![hint(0, 1, InlayKind::TypeHint, "u32")];
    let off = InlayHintsConfig { struct_layout_hints: None, ..config() };
    assert_eq!(get_struct_layout_hints(&mut hints, &vec![structure], &table, &off), None);
    assert_eq!(hints, vec![hint(0, 1, InlayKind::TypeHint, "u32")]);
    assert_eq!(get_struct_layout_hints(&mut hints, &vec![], &table, &config()), Some(()));
    assert_eq!(hints, vec![hint(0, 1, InlayKind::TypeHint, "u32")]);
}

#[test]
fn structs_one_after_the_other() {
    let (first, table) = nested_source(false);
    let (second, _) = nested_source(true);
    let mut hints = Vec::new();
    get_struct_layout_hints(&mut hints, &vec![first, second], &table, &config());
    let offsets: Vec<&str> = hints.iter().map(|hint| hint.label.as_str()).collect();
    assert_eq!(offsets, vec!["0", "4", "0", "16"]);
}

fn file_nodes() -> Vec<SyntaxNode> {
    vec![
        call(&["count"], vec![argument(path("other"), 2, 7)], 0, 8),
        binding(false, Some(f32_type()), Some(range(14, 15))),
        call(&["size"], vec![argument(path("width"), 32, 37)], 30, 38),
    ]
}

#[test]
fn hints_of_a_file() {
    let (structure, table) = nested_source(false);
    let hints = inlay_hints(&file_nodes(), &vec![structure], &table, None, &config());
    assert_eq!(
        hints,
        vec![
            hint(2, 7, InlayKind::ParameterHint, "count"),
            hint(14, 15, InlayKind::TypeHint, "f32"),
            hint(32, 37, InlayKind::ParameterHint, "size"),
            hint(0, 5, InlayKind::StructLayoutHint, "0"),
            hint(6, 9, InlayKind::StructLayoutHint, "4"),
        ]
    );
}

#[test]
fn hints_within_a_range() {
    let (structure, table) = nested_source(false);
    let limit = RangeLimit { range: range(0, 20), within_token: false };
    let hints = inlay_hints(&file_nodes(), &vec![structure], &table, Some(limit), &config());
    assert_eq!(
        hints,
        vec![
            hint(2, 7, InlayKind::ParameterHint, "count"),
            hint(14, 15, InlayKind::TypeHint, "f32"),
            hint(0, 5, InlayKind::StructLayoutHint, "0"),
            hint(6, 9, InlayKind::StructLayoutHint, "4"),
        ]
    );
    let (structure, table) = nested_source(false);
    let limit = RangeLimit { range: range(0, 20), within_token: true };
    assert_eq!(inlay_hints(&file_nodes(), &vec![structure], &table, Some(limit), &config()), vec![]);
}

#[test]
fn hints_of_a_file_with_everything_off() {
    let (structure, table) = nested_source(false);
    let off = InlayHintsConfig { enabled: true, type_hints: false, parameter_hints: false, struct_layout_hints: None };
    assert_eq!(inlay_hints(&file_nodes(), &vec![structure], &table, None, &off), vec![]);
}
