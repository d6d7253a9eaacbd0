use wit_query::{
    Arena, Expansion, Field, Graph, Querier, Type, TypeDef, TypeDefKind, TypeId, TypeOwner, World,
    WorldId,
};

const TYPES: u32 = 2;

fn id(index: usize) -> Type {
    Type::Id(TypeId { arena: TYPES, index })
}

fn def(name: Option<&str>, kind: TypeDefKind) -> TypeDef {
    TypeDef { name: name.map(|n| n.to_string()), kind, owner: TypeOwner::Unowned }
}

fn querier(types: Vec<TypeDef>) -> Querier {
    let world = World { name: "w".to_string(), imports: Vec::new(), exports: Vec::new() };
    let graph = Graph {
        worlds: Arena { tag: 0, items: vec![world] },
        interfaces: Arena { tag: 1, items: Vec::new() },
        types: Arena { tag: TYPES, items: types },
        packages: Arena { tag: 3, items: Vec::new() },
    };
    assert!(graph.is_well_formed());
    Querier::new(graph, WorldId { arena: 0, index: 0 })
}

fn enum_e() -> TypeDef {
    def(Some("E"), TypeDefKind::Enum(vec!["a".to_string(), "b".to_string()]))
}

fn record_r() -> TypeDef {
    def(
        Some("R"),
        TypeDefKind::Record(vec![
            Field { name: "x".to_string(), ty: Type::U32 },
            Field { name: "y".to_string(), ty: Type::String },
        ]),
    )
}

fn show(q: &Querier, ty: Type, mode: Expansion) -> String {
    assert!(q.can_display_wit_type(&ty, mode));
    q.display_wit_type(&ty, mode)
}

fn show_def(q: &Querier, def: &TypeDef, mode: Expansion) -> String {
    assert!(q.can_display_wit_type_def(def, mode));
    q.display_wit_type_def(def, mode)
}

#[test]
fn primitives_render_as_their_keywords_in_every_mode() {
    let q = querier(Vec::new());
    let expected = [
        (Type::Bool, "bool"),
        (Type::U8, "u8"),
        (Type::U16, "u16"),
        (Type::U32, "u32"),
        (Type::U64, "u64"),
        (Type::S8, "s8"),
        (Type::S16, "s16"),
        (Type::S32, "s32"),
        (Type::S64, "s64"),
        (Type::Float32, "float32"),
        (Type::Float64, "float64"),
        (Type::Char, "char"),
        (Type::String, "string"),
    ];
    for (ty, word) in expected {
        for mode in [
            Expansion::Collapsed,
            Expansion::Expanded(0),
            Expansion::Expanded(1),
            Expansion::Expanded(255),
        ] {
            assert_eq!(show(&q, ty, mode), word);
        }
    }
}

#[test]
fn primitives_render_the_same_in_another_graph() {
    let empty = querier(Vec::new());
    let full = querier(vec![enum_e(), record_r()]);
    assert_eq!(
        show(&empty, Type::Float64, Expansion::Collapsed),
        show(&full, Type::Float64, Expansion::Expanded(3))
    );
}

#[test]
fn alias_renders_as_its_target_collapsed() {
    let q = querier(vec![enum_e(), def(Some("alias"), TypeDefKind::Type(id(0)))]);
    let alias = def(Some("alias"), TypeDefKind::Type(id(0)));
    assert_eq!(show_def(&q, &alias, Expansion::Collapsed), "E");
    assert_eq!(
        show_def(&q, &alias, Expansion::Collapsed),
        show(&q, id(0), Expansion::Collapsed)
    );
    assert_eq!(show(&q, id(1), Expansion::Collapsed), "E");
}

#[test]
fn alias_renders_as_its_target_expanded() {
    let q = querier(vec![enum_e(), def(Some("alias"), TypeDefKind::Type(id(0)))]);
    let alias = def(Some("alias"), TypeDefKind::Type(id(0)));
    assert_eq!(show_def(&q, &alias, Expansion::Expanded(1)), "enum {\n    a,\n    b\n}");
    assert_eq!(
        show_def(&q, &alias, Expansion::Expanded(1)),
        show(&q, id(0), Expansion::Expanded(1))
    );
    assert_eq!(show(&q, id(1), Expansion::Expanded(1)), show(&q, id(0), Expansion::Expanded(1)));
}

#[test]
fn alias_of_a_primitive_renders_as_the_keyword() {
    let q = querier(Vec::new());
    let alias = def(Some("bytes"), TypeDefKind::Type(Type::U8));
    assert_eq!(show_def(&q, &alias, Expansion::Collapsed), "u8");
    assert_eq!(show_def(&q, &alias, Expansion::Expanded(2)), "u8");
}

#[test]
fn result_with_ok_alone() {
    let q = querier(Vec::new());
    let d = def(None, TypeDefKind::Result { ok: Some(Type::U32), err: None });
    assert_eq!(show_def(&q, &d, Expansion::Collapsed), "result<u32>");
}

#[test]
fn result_with_err_alone() {
    let q = querier(Vec::new());
    let d = def(None, TypeDefKind::Result { ok: None, err: Some(Type::String) });
    assert_eq!(show_def(&q, &d, Expansion::Collapsed), "result<string>");
}

#[test]
fn result_with_both() {
    let q = querier(Vec::new());
    let d = def(None, TypeDefKind::Result { ok: Some(Type::U32), err: Some(Type::String) });
    assert_eq!(show_def(&q, &d, Expansion::Collapsed), "result<u32, string>");
}

#[test]
fn result_with_neither() {
    let q = querier(Vec::new());
    let d = def(None, TypeDefKind::Result { ok: None, err: None });
    assert_eq!(show_def(&q, &d, Expansion::Collapsed), "result");
    assert_eq!(show_def(&q, &d, Expansion::Expanded(1)), "result");
}

#[test]
fn result_collapses_what_it_holds() {
    let q = querier(vec![enum_e(), record_r()]);
    let d = def(None, TypeDefKind::Result { ok: Some(id(0)), err: Some(id(1)) });
    assert_eq!(show_def(&q, &d, Expansion::Expanded(1)), "result<E, R>");
}

#[test]
fn option_collapses_its_inner_type() {
    let q = querier(vec![enum_e()]);
    let d = def(None, TypeDefKind::Option(id(0)));
    assert_eq!(show_def(&q, &d, Expansion::Expanded(1)), "option<E>");
    assert_eq!(show_def(&q, &d, Expansion::Collapsed), "option<E>");
    let plain = def(None, TypeDefKind::Option(Type::Bool));
    assert_eq!(show_def(&q, &plain, Expansion::Collapsed), "option<bool>");
}

#[test]
fn list_collapses_its_inner_type() {
    let q = querier(vec![record_r()]);
    let d = def(None, TypeDefKind::List(id(0)));
    assert_eq!(show_def(&q, &d, Expansion::Expanded(1)), "list<R>");
    assert_eq!(show_def(&q, &d, Expansion::Collapsed), "list<R>");
    let plain = def(None, TypeDefKind::List(Type::U8));
    assert_eq!(show_def(&q, &plain, Expansion::Expanded(4)), "list<u8>");
}

#[test]
fn tuple_lists_its_members() {
    let q = querier(vec![enum_e()]);
    let d = def(None, TypeDefKind::Tuple(vec![Type::U32, Type::String, id(0)]));
    assert_eq!(show_def(&q, &d, Expansion::Collapsed), "tuple<u32, string, E>");
    assert_eq!(show_def(&q, &d, Expansion::Expanded(1)), "tuple<u32, string, E>");
    let one = def(None, TypeDefKind::Tuple(vec![Type::Char]));
    assert_eq!(show_def(&q, &one, Expansion::Collapsed), "tuple<char>");
    let none = def(None, TypeDefKind::Tuple(Vec::new()));
    assert_eq!(show_def(&q, &none, Expansion::Collapsed), "tuple<>");
}

#[test]
fn enum_collapsed_is_its_name() {
    let q = querier(vec![enum_e()]);
    assert_eq!(show(&q, id(0), Expansion::Collapsed), "E");
    assert_eq!(show_def(&q, &enum_e(), Expansion::Collapsed), "E");
}

#[test]
fn enum_expanded_lists_its_cases() {
    let q = querier(vec![enum_e()]);
    assert_eq!(show(&q, id(0), Expansion::Expanded(1)), "enum {\n    a,\n    b\n}");
    assert_eq!(show_def(&q, &enum_e(), Expansion::Expanded(1)), "enum {\n    a,\n    b\n}");
}

#[test]
fn enum_expanded_deeper_indents_body_and_brace() {
    let q = querier(vec![enum_e()]);
    assert_eq!(
        show(&q, id(0), Expansion::Expanded(2)),
        "enum {\n        a,\n        b\n    }"
    );
    assert_eq!(
        show(&q, id(0), Expansion::Expanded(3)),
        "enum {\n            a,\n            b\n        }"
    );
}

#[test]
fn enum_without_cases_expands_to_an_empty_body() {
    let q = querier(Vec::new());
    let d = def(Some("never"), TypeDefKind::Enum(Vec::new()));
    assert_eq!(show_def(&q, &d, Expansion::Expanded(1)), "enum {\n\n}");
}

#[test]
fn anonymous_enum_can_be_expanded() {
    let q = querier(Vec::new());
    let d = def(None, TypeDefKind::Enum(vec!["only".to_string()]));
    assert_eq!(show_def(&q, &d, Expansion::Expanded(1)), "enum {\n    only\n}");
}

#[test]
fn record_collapsed_is_its_name() {
    let q = querier(vec![record_r()]);
    assert_eq!(show(&q, id(0), Expansion::Collapsed), "R");
}

#[test]
fn record_expanded_lists_its_fields() {
    let q = querier(vec![record_r()]);
    assert_eq!(
        show(&q, id(0), Expansion::Expanded(1)),
        "record {\n    x: u32,\n    y: string\n}"
    );
    assert_eq!(
        show(&q, id(0), Expansion::Expanded(2)),
        "record {\n        x: u32,\n        y: string\n    }"
    );
}

#[test]
fn record_expands_one_level_only() {
    let outer = def(
        Some("Outer"),
        TypeDefKind::Record(vec![
            Field { name: "inner".to_string(), ty: id(0) },
            Field { name: "kind".to_string(), ty: id(1) },
            Field { name: "maybe".to_string(), ty: id(2) },
        ]),
    );
    let q = querier(vec![
        record_r(),
        enum_e(),
        def(None, TypeDefKind::Option(id(0))),
        outer,
    ]);
    assert_eq!(
        show(&q, id(3), Expansion::Expanded(1)),
        "record {\n    inner: R,\n    kind: E,\n    maybe: option<R>\n}"
    );
}

#[test]
fn record_without_fields_expands_to_an_empty_body() {
    let q = querier(Vec::new());
    let d = def(Some("unit"), TypeDefKind::Record(Vec::new()));
    assert_eq!(show_def(&q, &d, Expansion::Expanded(1)), "record {\n\n}");
}

#[test]
fn nested_types_render_inside_out() {
    let q = querier(vec![
        def(None, TypeDefKind::Tuple(vec![Type::U8, Type::S64])),
        def(None, TypeDefKind::List(id(0))),
        def(None, TypeDefKind::Option(id(1))),
        def(None, TypeDefKind::Result { ok: Some(id(2)), err: Some(Type::String) }),
    ]);
    assert_eq!(
        show(&q, id(3), Expansion::Collapsed),
        "result<option<list<tuple<u8, s64>>>, string>"
    );
}

#[test]
fn a_reference_may_point_forward_in_the_arena() {
    let q = querier(vec![def(None, TypeDefKind::List(id(1))), enum_e()]);
    assert_eq!(show(&q, id(0), Expansion::Collapsed), "list<E>");
}

#[test]
fn unsupported_kinds_cannot_be_rendered() {
    let q = querier(Vec::new());
    for kind in [
        TypeDefKind::Resource,
        TypeDefKind::Handle,
        TypeDefKind::Flags,
        TypeDefKind::Variant,
        TypeDefKind::Future,
        TypeDefKind::Stream,
        TypeDefKind::Unknown,
    ] {
        let d = def(Some("x"), kind);
        assert!(!q.can_display_wit_type_def(&d, Expansion::Collapsed));
        assert!(!q.can_display_wit_type_def(&d, Expansion::Expanded(1)));
    }
}

#[test]
fn unsupported_kind_inside_another_type_cannot_be_rendered() {
    let q = querier(vec![def(Some("res"), TypeDefKind::Resource)]);
    assert!(!q.can_display_wit_type(&id(0), Expansion::Collapsed));
    let d = def(None, TypeDefKind::Option(id(0)));
    assert!(!q.can_display_wit_type_def(&d, Expansion::Collapsed));
    let t = def(None, TypeDefKind::Tuple(vec![Type::U8, id(0)]));
    assert!(!q.can_display_wit_type_def(&t, Expansion::Collapsed));
}

#[test]
fn anonymous_aggregate_cannot_be_collapsed() {
    let q = querier(Vec::new());
    let e = def(None, TypeDefKind::Enum(vec!["a".to_string()]));
    assert!(!q.can_display_wit_type_def(&e, Expansion::Collapsed));
    assert!(q.can_display_wit_type_def(&e, Expansion::Expanded(1)));
    let r = def(None, TypeDefKind::Record(Vec::new()));
    assert!(!q.can_display_wit_type_def(&r, Expansion::Collapsed));
    assert!(q.can_display_wit_type_def(&r, Expansion::Expanded(1)));
}

#[test]
fn anonymous_aggregate_inside_another_type_cannot_be_rendered() {
    let q = querier(vec![def(None, TypeDefKind::Enum(vec!["a".to_string()]))]);
    let d = def(None, TypeDefKind::List(id(0)));
    assert!(!q.can_display_wit_type_def(&d, Expansion::Expanded(1)));
}

#[test]
fn aggregate_cannot_be_expanded_at_level_zero() {
    let q = querier(vec![enum_e(), record_r()]);
    assert!(!q.can_display_wit_type(&id(0), Expansion::Expanded(0)));
    assert!(!q.can_display_wit_type(&id(1), Expansion::Expanded(0)));
    assert!(q.can_display_wit_type(&id(0), Expansion::Expanded(1)));
}

#[test]
fn a_reference_to_nothing_cannot_be_rendered() {
    let q = querier(vec![enum_e()]);
    assert!(!q.can_display_wit_type(&id(1), Expansion::Collapsed));
    let foreign = Type::Id(TypeId { arena: TYPES + 1, index: 0 });
    assert!(!q.can_display_wit_type(&foreign, Expansion::Collapsed));
    assert!(q.can_display_wit_type(&id(0), Expansion::Collapsed));
}

#[test]
fn a_circle_of_aliases_cannot_be_rendered() {
    let q = querier(vec![
        def(Some("a"), TypeDefKind::Type(id(1))),
        def(Some("b"), TypeDefKind::Type(id(0))),
    ]);
    assert!(!q.can_display_wit_type(&id(0), Expansion::Collapsed));
    let own = querier(vec![def(Some("a"), TypeDefKind::Type(id(0)))]);
    assert!(!own.can_display_wit_type(&id(0), Expansion::Collapsed));
}

#[test]
fn a_chain_as_long_as_the_arena_can_be_rendered() {
    let q = querier(vec![
        def(None, TypeDefKind::Type(id(1))),
        def(None, TypeDefKind::Type(id(2))),
        def(None, TypeDefKind::Type(Type::S16)),
    ]);
    assert_eq!(show(&q, id(0), Expansion::Collapsed), "s16");
}

#[test]
fn record_field_with_unsupported_type_is_fine_when_collapsed() {
    let q = querier(vec![
        def(Some("res"), TypeDefKind::Resource),
        def(Some("Holder"), TypeDefKind::Record(vec![Field { name: "r".to_string(), ty: id(0) }])),
    ]);
    assert_eq!(show(&q, id(1), Expansion::Collapsed), "Holder");
    assert!(!q.can_display_wit_type(&id(1), Expansion::Expanded(1)));
}

#[test]
fn the_depth_bounds_the_references_followed() {
    let q = querier(vec![
        def(None, TypeDefKind::Type(id(1))),
        def(None, TypeDefKind::Type(Type::S16)),
    ]);
    let graph = q.graph();
    assert!(graph.can_render_type(&Type::Bool, Expansion::Collapsed, 0));
    assert_eq!(graph.render_type(&Type::Bool, Expansion::Collapsed, 0), "bool");
    assert!(!graph.can_render_type(&id(1), Expansion::Collapsed, 0));
    assert!(graph.can_render_type(&id(1), Expansion::Collapsed, 1));
    assert!(!graph.can_render_type(&id(0), Expansion::Collapsed, 1));
    assert!(graph.can_render_type(&id(0), Expansion::Collapsed, 2));
    assert_eq!(graph.render_type(&id(0), Expansion::Collapsed, 2), "s16");
    assert_eq!(graph.render_type(&id(0), Expansion::Collapsed, 9), "s16");
    let alias = def(None, TypeDefKind::Type(id(0)));
    assert!(!graph.can_render_def(&alias, Expansion::Collapsed, 1));
    assert!(graph.can_render_def(&alias, Expansion::Collapsed, 2));
    assert_eq!(graph.render_def(&alias, Expansion::Collapsed, 2), "s16");
}
