use wit_query::compat::same_params;
use wit_query::{
    Arena, Decoded, Function, Graph, Param, Querier, QueryError, Results, Type, TypeId, World,
    WorldId, WorldItem, WorldKey,
};

fn function(name: &str, params: Vec<(&str, Type)>, results: Results) -> Function {
    Function {
        name: name.to_string(),
        params: params
            .into_iter()
            .map(|(name, ty)| Param { name: name.to_string(), ty })
            .collect(),
        results,
    }
}

fn f(results: Results) -> Function {
    function("f", vec![("x", Type::U32)], results)
}

fn entry(function: Function) -> (WorldKey, WorldItem) {
    (WorldKey::Name(function.name.clone()), WorldItem::Function(function))
}

fn graph(tag: u32, imports: Vec<(WorldKey, WorldItem)>, exports: Vec<(WorldKey, WorldItem)>) -> Graph {
    Graph {
        worlds: Arena {
            tag,
            items: vec![World { name: "root".to_string(), imports, exports }],
        },
        interfaces: Arena { tag: tag + 1, items: Vec::new() },
        types: Arena { tag: tag + 2, items: Vec::new() },
        packages: Arena { tag: tag + 3, items: Vec::new() },
    }
}

fn importer(function: Function) -> Querier {
    Querier::try_new(graph(0, vec![entry(function)], Vec::new()), WorldId { arena: 0, index: 0 })
        .unwrap()
}

fn exporter(function: Function) -> Decoded {
    Decoded::Component(graph(4, Vec::new(), vec![entry(function)]), WorldId { arena: 4, index: 0 })
}

#[test]
fn an_import_matches_the_same_export() {
    let a = importer(f(Results::Anon(Type::String)));
    assert_eq!(a.check_dynamic_import("f", exporter(f(Results::Anon(Type::String)))), Ok(()));
}

#[test]
fn another_return_value_is_a_mismatch() {
    let a = importer(f(Results::Anon(Type::String)));
    let outcome = a.check_dynamic_import("f", exporter(f(Results::Anon(Type::U32))));
    assert_eq!(outcome, Err(QueryError::ResultsMismatch));
    assert_eq!(outcome.unwrap_err().message(), "return values not equal");
}

#[test]
fn named_and_anonymous_results_differ() {
    let a = importer(f(Results::Anon(Type::String)));
    let named = Results::Named(vec![Param { name: "r".to_string(), ty: Type::String }]);
    assert_eq!(
        a.check_dynamic_import("f", exporter(f(named.clone()))),
        Err(QueryError::ResultsMismatch)
    );
    let b = importer(f(named.clone()));
    assert_eq!(b.check_dynamic_import("f", exporter(f(named))), Ok(()));
    let other = Results::Named(vec![Param { name: "s".to_string(), ty: Type::String }]);
    assert_eq!(b.check_dynamic_import("f", exporter(f(other))), Err(QueryError::ResultsMismatch));
    assert_eq!(
        b.check_dynamic_import("f", exporter(f(Results::Named(Vec::new())))),
        Err(QueryError::ResultsMismatch)
    );
}

#[test]
fn no_results_match_no_results() {
    let a = importer(f(Results::Named(Vec::new())));
    assert_eq!(a.check_dynamic_import("f", exporter(f(Results::Named(Vec::new())))), Ok(()));
}

#[test]
fn another_parameter_type_is_a_mismatch() {
    let a = importer(f(Results::Anon(Type::String)));
    let other = function("f", vec![("x", Type::U64)], Results::Anon(Type::String));
    let outcome = a.check_dynamic_import("f", exporter(other));
    assert_eq!(outcome, Err(QueryError::ParamsMismatch));
    assert_eq!(outcome.unwrap_err().message(), "params not equal");
}

#[test]
fn another_parameter_name_is_a_mismatch() {
    let a = importer(f(Results::Anon(Type::String)));
    let other = function("f", vec![("y", Type::U32)], Results::Anon(Type::String));
    assert_eq!(a.check_dynamic_import("f", exporter(other)), Err(QueryError::ParamsMismatch));
}

#[test]
fn another_number_of_parameters_is_a_mismatch() {
    let a = importer(f(Results::Anon(Type::String)));
    let more = function("f", vec![("x", Type::U32), ("y", Type::U32)], Results::Anon(Type::String));
    assert_eq!(a.check_dynamic_import("f", exporter(more)), Err(QueryError::ParamsMismatch));
    let fewer = function("f", Vec::new(), Results::Anon(Type::String));
    assert_eq!(a.check_dynamic_import("f", exporter(fewer)), Err(QueryError::ParamsMismatch));
}

#[test]
fn parameters_are_judged_before_results() {
    let a = importer(f(Results::Anon(Type::String)));
    let other = function("f", vec![("x", Type::Bool)], Results::Anon(Type::U32));
    assert_eq!(a.check_dynamic_import("f", exporter(other)), Err(QueryError::ParamsMismatch));
}

#[test]
fn parameters_in_another_order_are_a_mismatch() {
    let a = importer(function(
        "f",
        vec![("x", Type::U32), ("y", Type::String)],
        Results::Named(Vec::new()),
    ));
    let swapped =
        function("f", vec![("y", Type::String), ("x", Type::U32)], Results::Named(Vec::new()));
    assert_eq!(a.check_dynamic_import("f", exporter(swapped)), Err(QueryError::ParamsMismatch));
}

#[test]
fn a_type_of_another_graph_is_another_type() {
    let mine = Type::Id(TypeId { arena: 2, index: 0 });
    let theirs = Type::Id(TypeId { arena: 6, index: 0 });
    let a = importer(function("f", vec![("x", mine)], Results::Named(Vec::new())));
    let same = function("f", vec![("x", mine)], Results::Named(Vec::new()));
    assert_eq!(a.check_dynamic_import("f", exporter(same)), Ok(()));
    let other = function("f", vec![("x", theirs)], Results::Named(Vec::new()));
    assert_eq!(a.check_dynamic_import("f", exporter(other)), Err(QueryError::ParamsMismatch));
}

#[test]
fn a_missing_import_is_reported() {
    let a = importer(f(Results::Anon(Type::String)));
    let g = function("g", Vec::new(), Results::Named(Vec::new()));
    let outcome = a.check_dynamic_import("g", exporter(g));
    assert_eq!(outcome, Err(QueryError::MissingImport("g".to_string())));
    assert_eq!(outcome.unwrap_err().message(), "no import with name 'g'");
}

#[test]
fn a_missing_export_is_reported() {
    let a = importer(f(Results::Anon(Type::String)));
    let g = function("g", Vec::new(), Results::Named(Vec::new()));
    let outcome = a.check_dynamic_import("f", exporter(g));
    assert_eq!(outcome, Err(QueryError::MissingExport("f".to_string())));
    assert_eq!(outcome.unwrap_err().message(), "no export with name 'f'");
}

#[test]
fn a_missing_import_is_reported_before_a_missing_export() {
    let a = importer(f(Results::Anon(Type::String)));
    let g = function("g", Vec::new(), Results::Named(Vec::new()));
    assert_eq!(
        a.check_dynamic_import("h", exporter(g)),
        Err(QueryError::MissingImport("h".to_string()))
    );
}

#[test]
fn an_import_that_is_no_function_counts_as_missing() {
    let import = (WorldKey::Name("f".to_string()), WorldItem::Type(TypeId { arena: 2, index: 0 }));
    let a = Querier::try_new(graph(0, vec![import], Vec::new()), WorldId { arena: 0, index: 0 })
        .unwrap();
    assert_eq!(
        a.check_dynamic_import("f", exporter(f(Results::Anon(Type::String)))),
        Err(QueryError::MissingImport("f".to_string()))
    );
}

#[test]
fn the_export_is_sought_among_exports_only() {
    let a = importer(f(Results::Anon(Type::String)));
    let other = Decoded::Component(
        graph(4, vec![entry(f(Results::Anon(Type::String)))], Vec::new()),
        WorldId { arena: 4, index: 0 },
    );
    assert_eq!(
        a.check_dynamic_import("f", other),
        Err(QueryError::MissingExport("f".to_string()))
    );
}

#[test]
fn a_package_is_no_component() {
    let outcome = Querier::from_decoded(Decoded::Package);
    assert_eq!(outcome.as_ref().err(), Some(&QueryError::NotAComponent));
    assert_eq!(
        outcome.err().unwrap().message(),
        "found wit package instead of the expect WebAssembly component"
    );
}

#[test]
fn a_package_cannot_be_checked_against() {
    let a = importer(f(Results::Anon(Type::String)));
    assert_eq!(a.check_dynamic_import("f", Decoded::Package), Err(QueryError::NotAComponent));
    assert_eq!(a.check_dynamic_import("nope", Decoded::Package), Err(QueryError::NotAComponent));
}

#[test]
fn bytes_that_could_not_be_decoded_give_an_error() {
    let outcome = Querier::from_decoded(Decoded::Invalid("unexpected end".to_string()));
    assert_eq!(outcome.as_ref().err(), Some(&QueryError::Decode("unexpected end".to_string())));
    assert_eq!(
        outcome.err().unwrap().message(),
        "could not decode given file as a WebAssembly component: unexpected end"
    );
    let a = importer(f(Results::Anon(Type::String)));
    assert_eq!(
        a.check_dynamic_import("f", Decoded::Invalid("bad magic".to_string())),
        Err(QueryError::Decode("bad magic".to_string()))
    );
}

#[test]
fn a_component_gives_a_querier_over_its_world() {
    let q = Querier::from_decoded(exporter(f(Results::Anon(Type::String)))).unwrap();
    assert_eq!(q.world().name, "root");
    assert_eq!(q.exported_function("f"), Some(&f(Results::Anon(Type::String))));
}

#[test]
fn a_check_can_be_made_again() {
    let a = importer(f(Results::Anon(Type::String)));
    let first = a.check_dynamic_import("f", exporter(f(Results::Anon(Type::U32))));
    let second = a.check_dynamic_import("f", exporter(f(Results::Anon(Type::U32))));
    assert_eq!(first, second);
}

#[test]
fn parameters_and_results_are_the_same_by_what_they_hold() {
    let x = Param { name: "x".to_string(), ty: Type::U32 };
    assert!(x.same(&Param { name: "x".to_string(), ty: Type::U32 }));
    assert!(!x.same(&Param { name: "x".to_string(), ty: Type::S32 }));
    assert!(!x.same(&Param { name: "xx".to_string(), ty: Type::U32 }));
    assert!(Results::Anon(Type::Char).same(&Results::Anon(Type::Char)));
    assert!(!Results::Anon(Type::Char).same(&Results::Anon(Type::String)));
    assert!(!Results::Anon(Type::Char).same(&Results::Named(Vec::new())));
    assert!(Results::Named(vec![x.clone()]).same(&Results::Named(vec![x.clone()])));
    assert!(!Results::Named(vec![x.clone()]).same(&Results::Named(vec![x.clone(), x])));
}

#[test]
fn parameter_lists_are_the_same_item_by_item() {
    let x = Param { name: "x".to_string(), ty: Type::U32 };
    let y = Param { name: "y".to_string(), ty: Type::U32 };
    assert!(same_params(&Vec::new(), &Vec::new()));
    assert!(same_params(&vec![x.clone(), y.clone()], &vec![x.clone(), y.clone()]));
    assert!(!same_params(&vec![x.clone(), y.clone()], &vec![y.clone(), x.clone()]));
    assert!(!same_params(&vec![x.clone()], &vec![x.clone(), y.clone()]));
    assert!(!same_params(&vec![x.clone(), y.clone()], &vec![x.clone()]));
    assert!(!same_params(&vec![x.clone(), y.clone()], &vec![x.clone(), x]));
}
