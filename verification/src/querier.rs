//! The querier: a graph, one of its worlds, and the questions asked of them.

use vstd::prelude::*;
use vstd::string::StringExecFns;

use crate::graph::{
    entries_view, Function, FunctionView, Graph, GraphView, Interface, World, WorldItem,
    WorldItemView, WorldKey, WorldKeyView, WorldView,
};
use crate::ids::{InterfaceId, WorldId};
use crate::types::{TypeDef, TypeDefView, TypeOwner};
use crate::views::opt_text;

verus! {

/// Read-only queries over one world of a graph.
///
/// A querier owns its graph. The graph is well formed and holds the selected
/// world for as long as the querier lives.
pub struct Querier {
    graph: Graph,
    world_id: WorldId,
}

/// A querier as a mathematical value.
pub struct QuerierView {
    pub graph: GraphView,
    pub world_id: WorldId,
}

/// The view of an item that may be absent.
pub open spec fn item_view(item: Option<&WorldItem>) -> Option<WorldItemView> {
    match item {
        Some(item) => Some(item@),
        None => None,
    }
}

/// The view of a function that may be absent.
pub open spec fn function_view(function: Option<&Function>) -> Option<FunctionView> {
    match function {
        Some(function) => Some(function@),
        None => None,
    }
}

/// The item of the first entry whose key is shown as `name`.
pub open spec fn find_item(
    graph: GraphView,
    entries: Seq<(WorldKeyView, WorldItemView)>,
    name: Seq<char>,
) -> Option<WorldItemView>
    decreases entries.len(),
{
    if entries.len() == 0 {
        None
    } else if graph.key_name(entries[0].0) == name {
        Some(entries[0].1)
    } else {
        find_item(graph, entries.skip(1), name)
    }
}

/// The function that `item` is, if it is one.
pub open spec fn as_function(item: Option<WorldItemView>) -> Option<FunctionView> {
    match item {
        Some(WorldItemView::Function(function)) => Some(function),
        _ => None,
    }
}

/// The interface that owns a type, if an interface does.
pub open spec fn owning_interface(owner: TypeOwner) -> Option<InterfaceId> {
    match owner {
        TypeOwner::Interface(id) => Some(id),
        _ => None,
    }
}

/// The test that a definition passes if it is called `name`.
pub open spec fn called(name: Seq<char>) -> spec_fn(TypeDefView) -> bool {
    |def: TypeDefView| def.name == Some(name)
}

/// A definition together with the interface that owns it.
pub open spec fn with_interface() -> spec_fn(TypeDefView) -> (Option<InterfaceId>, TypeDefView) {
    |def: TypeDefView| (owning_interface(def.owner), def)
}

/// A listing of type definitions, as mathematical values.
pub open spec fn listed_types_view(types: Seq<(Option<InterfaceId>, &TypeDef)>) -> Seq<
    (Option<InterfaceId>, TypeDefView),
> {
    Seq::new(types.len(), |i: int| (types[i].0, types[i].1@))
}

/// Nothing is found exactly when no entry is shown as `name`.
pub proof fn lemma_find_item_none(
    graph: GraphView,
    entries: Seq<(WorldKeyView, WorldItemView)>,
    name: Seq<char>,
)
    ensures
        find_item(graph, entries, name) is None <==> forall|i: int|
            0 <= i < entries.len() ==> graph.key_name((#[trigger] entries[i]).0) != name,
    decreases entries.len(),
{
    if entries.len() > 0 && graph.key_name(entries[0].0) != name {
        let rest = entries.skip(1);
        lemma_find_item_none(graph, rest, name);
        if find_item(graph, rest, name) is None {
            assert forall|i: int| 0 <= i < entries.len() implies graph.key_name(
                (#[trigger] entries[i]).0,
            ) != name by {
                if i > 0 {
                    assert(rest[i - 1] == entries[i]);
                }
            }
        } else {
            let i = choose|i: int|
                0 <= i < rest.len() && graph.key_name((#[trigger] rest[i]).0) == name;
            assert(entries[i + 1] == rest[i]);
        }
    }
}

/// What is found is the item of the first entry that is shown as `name`;
/// the proof gives the position of that entry.
pub proof fn lemma_find_item_first(
    graph: GraphView,
    entries: Seq<(WorldKeyView, WorldItemView)>,
    name: Seq<char>,
) -> (at: int)
    requires
        find_item(graph, entries, name) is Some,
    ensures
        0 <= at < entries.len(),
        graph.key_name(entries[at].0) == name,
        find_item(graph, entries, name) == Some(entries[at].1),
        forall|i: int| 0 <= i < at ==> graph.key_name((#[trigger] entries[i]).0) != name,
    decreases entries.len(),
{
    if graph.key_name(entries[0].0) == name {
        0
    } else {
        let rest = entries.skip(1);
        let at = lemma_find_item_first(graph, rest, name);
        assert forall|i: int| 0 <= i < at + 1 implies graph.key_name((#[trigger] entries[i]).0)
            != name by {
            if i > 0 {
                assert(rest[i - 1] == entries[i]);
            }
        }
        at + 1
    }
}

impl QuerierView {
    /// What every querier satisfies.
    pub open spec fn well_formed(self) -> bool {
        self.graph.well_formed() && self.graph.has_world(self.world_id)
    }

    /// The selected world.
    pub open spec fn world(self) -> WorldView {
        self.graph.world(self.world_id)
    }

    /// The export shown as `name`: the first one in the world's order.
    pub open spec fn export(self, name: Seq<char>) -> Option<WorldItemView> {
        find_item(self.graph, self.world().exports, name)
    }

    /// The import shown as `name`: the first one in the world's order.
    pub open spec fn import(self, name: Seq<char>) -> Option<WorldItemView> {
        find_item(self.graph, self.world().imports, name)
    }

    /// The type definitions of the graph that are called `name`, in the
    /// order of the arena, each with the interface that owns it.
    pub open spec fn types_by_name(self, name: Seq<char>) -> Seq<
        (Option<InterfaceId>, TypeDefView),
    > {
        self.graph.types.items.filter(called(name)).map_values(with_interface())
    }
}

impl View for Querier {
    type V = QuerierView;

    closed spec fn view(&self) -> QuerierView {
        QuerierView { graph: self.graph@, world_id: self.world_id }
    }
}

impl Querier {
    /// A querier's graph is well formed and holds the selected world.
    #[verifier::type_invariant]
    spec fn holds_together(self) -> bool {
        self@.well_formed()
    }

    /// A querier over the world `world_id` of `graph`.
    pub fn new(graph: Graph, world_id: WorldId) -> (querier: Querier)
        requires
            graph@.well_formed(),
            graph@.has_world(world_id),
        ensures
            querier@ == (QuerierView { graph: graph@, world_id }),
    {
        Querier { graph, world_id }
    }

    /// The graph that the querier reads.
    pub fn graph(&self) -> (graph: &Graph)
        ensures
            graph@ == self@.graph,
            self@.well_formed(),
    {
        proof {
            use_type_invariant(self);
        }
        &self.graph
    }

    /// The selected world.
    pub fn world(&self) -> (world: &World)
        ensures
            world@ == self@.world(),
    {
        proof {
            use_type_invariant(self);
        }
        self.graph.world(self.world_id).unwrap()
    }

    /// The interface that `id` names; `None` if it is not one of the graph.
    pub fn interface(&self, id: InterfaceId) -> (interface: Option<&Interface>)
        ensures
            interface is Some <==> self@.graph.has_interface(id),
            interface matches Some(found) ==> found@ == self@.graph.interface(id),
    {
        self.graph.interface(id)
    }

    /// The name under which `name` is shown.
    pub fn world_item_name(&self, name: &WorldKey) -> (text: String)
        requires
            self@.graph.key_named(name@),
        ensures
            text@ == self@.graph.key_name(name@),
    {
        self.graph.name_world_key(name)
    }

    /// The qualified name of an interface; `None` if the interface is not
    /// one of the graph or has no name.
    pub fn interface_name(&self, interface: &InterfaceId) -> (name: Option<String>)
        ensures
            opt_text(name) == self@.graph.id_of(*interface),
    {
        self.graph.id_of(*interface)
    }

    /// The type definitions of the graph that are called `name`, in the
    /// order of the arena, each with the interface that owns it.
    pub fn types_by_name(&self, name: &str) -> (types: Vec<(Option<InterfaceId>, &TypeDef)>)
        ensures
            listed_types_view(types@) == self@.types_by_name(name@),
    {
        let defs = &self.graph.types.items;
        let ghost views = self@.graph.types.items;
        let ghost test = called(name@);
        let wanted = String::from_str(name);
        let mut types: Vec<(Option<InterfaceId>, &TypeDef)> = Vec::new();
        let mut i: usize = 0;
        assert(listed_types_view(types@) =~= views.take(0).filter(test).map_values(
            with_interface(),
        )) by {
            reveal(Seq::filter);
        }
        while i < defs.len()
            invariant
                i <= defs.len(),
                views == self@.graph.types.items,
                views.len() == defs@.len(),
                forall|j: int| 0 <= j < defs@.len() ==> (#[trigger] defs@[j])@ == views[j],
                test == called(name@),
                wanted@ == name@,
                listed_types_view(types@) == views.take(i as int).filter(test).map_values(
                    with_interface(),
                ),
            decreases defs.len() - i,
        {
            let def = &defs[i];
            let ghost before = listed_types_view(types@);
            proof {
                views.lemma_take_succ_push(i as int);
                views.take(i as int).lemma_filter_push(views[i as int], test);
            }
            let is_called = match &def.name {
                Some(found) => *found == wanted,
                None => false,
            };
            if is_called {
                let interface = match def.owner {
                    TypeOwner::Interface(id) => Some(id),
                    _ => None,
                };
                types.push((interface, def));
                assert(views.take(i as int).filter(test).push(views[i as int]).map_values(
                    with_interface(),
                ) =~= before.push(with_interface()(views[i as int])));
            }
            i = i + 1;
        }
        assert(views.take(i as int) =~= views);
        types
    }

    /// The item of the first of `items` whose key is shown as `name`.
    fn get_world_item_by_name<'a>(
        &self,
        items: &'a Vec<(WorldKey, WorldItem)>,
        name: &str,
    ) -> (item: Option<&'a WorldItem>)
        requires
            forall|i: int|
                0 <= i < items@.len() ==> self@.graph.key_named(
                    (#[trigger] entries_view(items@)[i]).0,
                ),
        ensures
            item_view(item) == find_item(self@.graph, entries_view(items@), name@),
    {
        let ghost entries = entries_view(items@);
        let wanted = String::from_str(name);
        let mut i: usize = 0;
        assert(entries.skip(0) =~= entries);
        while i < items.len()
            invariant
                i <= items.len(),
                entries == entries_view(items@),
                wanted@ == name@,
                forall|j: int|
                    0 <= j < items@.len() ==> self@.graph.key_named((#[trigger] entries[j]).0),
                find_item(self@.graph, entries, name@) == find_item(
                    self@.graph,
                    entries.skip(i as int),
                    name@,
                ),
            decreases items.len() - i,
        {
            let entry = &items[i];
            let shown = self.graph.name_world_key(&entry.0);
            if shown == wanted {
                return Some(&entry.1);
            }
            assert(entries.skip(i as int).skip(1) =~= entries.skip(i + 1));
            i = i + 1;
        }
        None
    }

    /// The export shown as `name`; `None` if no export is shown so.
    pub fn export(&self, name: &str) -> (item: Option<&WorldItem>)
        ensures
            item_view(item) == self@.export(name@),
    {
        proof {
            use_type_invariant(self);
            assert forall|i: int| 0 <= i < self@.world().exports.len() implies self@.graph.key_named(
                (#[trigger] self@.world().exports[i]).0,
            ) by {
                self@.graph.lemma_keys_are_named(self.world_id.index as int, i);
            }
        }
        self.get_world_item_by_name(&self.world().exports, name)
    }

    /// The import shown as `name`; `None` if no import is shown so.
    pub fn import(&self, name: &str) -> (item: Option<&WorldItem>)
        ensures
            item_view(item) == self@.import(name@),
    {
        proof {
            use_type_invariant(self);
            assert forall|i: int| 0 <= i < self@.world().imports.len() implies self@.graph.key_named(
                (#[trigger] self@.world().imports[i]).0,
            ) by {
                self@.graph.lemma_keys_are_named(self.world_id.index as int, i);
            }
        }
        self.get_world_item_by_name(&self.world().imports, name)
    }

    /// The exported function shown as `name`; `None` if no export is shown
    /// so, or if the first that is shown so is no function.
    pub fn exported_function(&self, name: &str) -> (function: Option<&Function>)
        ensures
            function_view(function) == as_function(self@.export(name@)),
    {
        match self.export(name) {
            Some(WorldItem::Function(function)) => Some(function),
            _ => None,
        }
    }

    /// The imported function shown as `name`; `None` if no import is shown
    /// so, or if the first that is shown so is no function.
    pub fn imported_function(&self, name: &str) -> (function: Option<&Function>)
        ensures
            function_view(function) == as_function(self@.import(name@)),
    {
        match self.import(name) {
            Some(WorldItem::Function(function)) => Some(function),
            _ => None,
        }
    }
}

} // verus!
