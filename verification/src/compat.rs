//! Decoded artifacts, the errors of the library, and the check of an import
//! of one component against the export of another.

use vstd::prelude::*;
use vstd::string::StringExecFns;

use crate::graph::{Function, Graph, GraphView, Param, Results, ResultsView};
use crate::ids::WorldId;
use crate::querier::{as_function, Querier, QuerierView};
use crate::views::seq_view;

verus! {

/// What decoding a binary gave.
#[derive(Clone, Debug, PartialEq, Eq)]
pub enum Decoded {
    /// A component: its graph, and the world that describes it.
    Component(Graph, WorldId),
    /// An interface package with no component around it.
    Package,
    /// Nothing: the bytes could not be decoded. The text says why.
    Invalid(String),
}

/// Why a query failed.
#[derive(Clone, Debug, PartialEq, Eq)]
pub enum QueryError {
    /// The bytes could not be decoded. The text says why.
    Decode(String),
    /// The bytes hold an interface package where a component was expected.
    NotAComponent,
    /// The importing component has no imported function of this name.
    MissingImport(String),
    /// The exporting component has no exported function of this name.
    MissingExport(String),
    /// The parameters of the import and of the export differ.
    ParamsMismatch,
    /// The results of the import and of the export differ.
    ResultsMismatch,
}

/// A decoded artifact as a mathematical value.
pub enum DecodedView {
    Component(GraphView, WorldId),
    Package,
    Invalid(Seq<char>),
}

/// An error as a mathematical value.
pub enum QueryErrorView {
    Decode(Seq<char>),
    NotAComponent,
    MissingImport(Seq<char>),
    MissingExport(Seq<char>),
    ParamsMismatch,
    ResultsMismatch,
}

impl View for Decoded {
    type V = DecodedView;

    open spec fn view(&self) -> DecodedView {
        match *self {
            Decoded::Component(graph, world_id) => DecodedView::Component(graph@, world_id),
            Decoded::Package => DecodedView::Package,
            Decoded::Invalid(cause) => DecodedView::Invalid(cause@),
        }
    }
}

impl View for QueryError {
    type V = QueryErrorView;

    open spec fn view(&self) -> QueryErrorView {
        match *self {
            QueryError::Decode(cause) => QueryErrorView::Decode(cause@),
            QueryError::NotAComponent => QueryErrorView::NotAComponent,
            QueryError::MissingImport(name) => QueryErrorView::MissingImport(name@),
            QueryError::MissingExport(name) => QueryErrorView::MissingExport(name@),
            QueryError::ParamsMismatch => QueryErrorView::ParamsMismatch,
            QueryError::ResultsMismatch => QueryErrorView::ResultsMismatch,
        }
    }
}

/// The outcome of constructing a querier, as a mathematical value.
pub open spec fn construction_view(outcome: Result<Querier, QueryError>) -> Result<
    QuerierView,
    QueryErrorView,
> {
    match outcome {
        Ok(querier) => Ok(querier@),
        Err(error) => Err(error@),
    }
}

/// The outcome of a check, as a mathematical value.
pub open spec fn check_view(outcome: Result<(), QueryError>) -> Result<(), QueryErrorView> {
    match outcome {
        Ok(()) => Ok(()),
        Err(error) => Err(error@),
    }
}

impl DecodedView {
    /// A decoded component holds a well-formed graph and a world of it.
    pub open spec fn well_formed(self) -> bool {
        match self {
            DecodedView::Component(graph, world_id) => graph.well_formed() && graph.has_world(
                world_id,
            ),
            _ => true,
        }
    }

    /// The querier that a decoded artifact gives: one over the component's
    /// world, and an error for anything but a component.
    pub open spec fn querier(self) -> Result<QuerierView, QueryErrorView> {
        match self {
            DecodedView::Component(graph, world_id) => Ok(QuerierView { graph, world_id }),
            DecodedView::Package => Err(QueryErrorView::NotAComponent),
            DecodedView::Invalid(cause) => Err(QueryErrorView::Decode(cause)),
        }
    }
}

impl QueryErrorView {
    /// The message of an error.
    pub open spec fn message(self) -> Seq<char> {
        match self {
            QueryErrorView::Decode(cause) => "could not decode given file as a WebAssembly component: "@
                + cause,
            QueryErrorView::NotAComponent => "found wit package instead of the expect WebAssembly component"@,
            QueryErrorView::MissingImport(name) => "no import with name '"@ + name + "'"@,
            QueryErrorView::MissingExport(name) => "no export with name '"@ + name + "'"@,
            QueryErrorView::ParamsMismatch => "params not equal"@,
            QueryErrorView::ResultsMismatch => "return values not equal"@,
        }
    }
}

impl QuerierView {
    /// Whether the import `name` of this querier's component matches the
    /// export `name` of the component `other`.
    ///
    /// The first failure in this order decides: `other` is no component;
    /// this world imports no function shown as `name`; the other world
    /// exports no function shown as `name`; the parameters differ; the
    /// results differ.
    pub open spec fn check_dynamic_import(self, name: Seq<char>, other: DecodedView) -> Result<
        (),
        QueryErrorView,
    > {
        match other.querier() {
            Err(error) => Err(error),
            Ok(exporter) => match as_function(self.import(name)) {
                None => Err(QueryErrorView::MissingImport(name)),
                Some(import) => match as_function(exporter.export(name)) {
                    None => Err(QueryErrorView::MissingExport(name)),
                    Some(export) => if import.params != export.params {
                        Err(QueryErrorView::ParamsMismatch)
                    } else if import.results != export.results {
                        Err(QueryErrorView::ResultsMismatch)
                    } else {
                        Ok(())
                    },
                },
            },
        }
    }
}

impl QueryError {
    /// The message of the error.
    pub fn message(&self) -> (text: String)
        ensures
            text@ == self@.message(),
    {
        match self {
            QueryError::Decode(cause) => {
                let mut text = String::from_str(
                    "could not decode given file as a WebAssembly component: ",
                );
                text.append(cause.as_str());
                text
            },
            QueryError::NotAComponent => String::from_str(
                "found wit package instead of the expect WebAssembly component",
            ),
            QueryError::MissingImport(name) => {
                let mut text = String::from_str("no import with name '");
                text.append(name.as_str());
                text.append("'");
                text
            },
            QueryError::MissingExport(name) => {
                let mut text = String::from_str("no export with name '");
                text.append(name.as_str());
                text.append("'");
                text
            },
            QueryError::ParamsMismatch => String::from_str("params not equal"),
            QueryError::ResultsMismatch => String::from_str("return values not equal"),
        }
    }
}

impl Param {
    /// Whether two parameters have the same name and the same type.
    pub fn same(&self, other: &Param) -> (b: bool)
        ensures
            b == (self@ == other@),
    {
        self.name == other.name && self.ty == other.ty
    }
}

/// Whether two parameter lists hold the same parameters in the same order.
pub fn same_params(a: &Vec<Param>, b: &Vec<Param>) -> (same: bool)
    ensures
        same == (seq_view(a@) == seq_view(b@)),
{
    if a.len() != b.len() {
        assert(seq_view(a@).len() != seq_view(b@).len());
        return false;
    }
    let mut i: usize = 0;
    while i < a.len()
        invariant
            i <= a.len(),
            a.len() == b.len(),
            forall|j: int| 0 <= j < i ==> (#[trigger] a@[j])@ == b@[j]@,
        decreases a.len() - i,
    {
        if !a[i].same(&b[i]) {
            assert(seq_view(a@)[i as int] != seq_view(b@)[i as int]);
            return false;
        }
        i = i + 1;
    }
    assert(seq_view(a@) =~= seq_view(b@));
    true
}

impl Results {
    /// Whether two result lists are of the same shape and hold the same.
    pub fn same(&self, other: &Results) -> (b: bool)
        ensures
            b == (self@ == other@),
    {
        match (self, other) {
            (Results::Named(a), Results::Named(b)) => same_params(a, b),
            (Results::Anon(a), Results::Anon(b)) => *a == *b,
            _ => false,
        }
    }
}

impl Querier {
    /// A querier over the world `world_id` of `graph`, if the graph is well
    /// formed and holds that world.
    pub fn try_new(graph: Graph, world_id: WorldId) -> (querier: Option<Querier>)
        ensures
            querier is Some <==> graph@.well_formed() && graph@.has_world(world_id),
            querier matches Some(found) ==> found@ == (QuerierView { graph: graph@, world_id }),
    {
        if graph.is_well_formed() && graph.world(world_id).is_some() {
            Some(Querier::new(graph, world_id))
        } else {
            None
        }
    }

    /// The querier of a decoded component. Anything but a component is an
    /// error.
    pub fn from_decoded(decoded: Decoded) -> (outcome: Result<Querier, QueryError>)
        requires
            decoded@.well_formed(),
        ensures
            construction_view(outcome) == decoded@.querier(),
    {
        match decoded {
            Decoded::Component(graph, world_id) => Ok(Querier::new(graph, world_id)),
            Decoded::Package => Err(QueryError::NotAComponent),
            Decoded::Invalid(cause) => Err(QueryError::Decode(cause)),
        }
    }

    /// Checks the imported function shown as `func_name` against the
    /// function that the component `other` exports under the same name:
    /// both must have the same parameters and the same results.
    pub fn check_dynamic_import(&self, func_name: &str, other: Decoded) -> (outcome: Result<
        (),
        QueryError,
    >)
        requires
            other@.well_formed(),
        ensures
            check_view(outcome) == self@.check_dynamic_import(func_name@, other@),
    {
        let other = match Querier::from_decoded(other) {
            Ok(querier) => querier,
            Err(error) => {
                return Err(error);
            },
        };
        let import = match self.imported_function(func_name) {
            Some(function) => function,
            None => {
                return Err(QueryError::MissingImport(String::from_str(func_name)));
            },
        };
        let export = match other.exported_function(func_name) {
            Some(function) => function,
            None => {
                return Err(QueryError::MissingExport(String::from_str(func_name)));
            },
        };
        if !same_params(&import.params, &export.params) {
            return Err(QueryError::ParamsMismatch);
        }
        if !import.results.same(&export.results) {
            return Err(QueryError::ResultsMismatch);
        }
        Ok(())
    }
}

} // verus!
