//! The resolved graph: packages, interfaces, types and worlds, each kind in
//! an arena of its own, with the mathematical view of each.

use vstd::prelude::*;

use crate::ids::{InterfaceId, PackageId, TypeId, WorldId};
use crate::types::{Type, TypeDef, TypeDefView};
use crate::views::{opt_text, seq_view};

verus! {

/// A named parameter or result of a function.
#[derive(Clone, Debug, PartialEq, Eq)]
pub struct Param {
    pub name: String,
    pub ty: Type,
}

/// What a function returns: named values, or one anonymous value.
#[derive(Clone, Debug, PartialEq, Eq)]
pub enum Results {
    Named(Vec<Param>),
    Anon(Type),
}

/// A function of a world or of an interface.
#[derive(Clone, Debug, PartialEq, Eq)]
pub struct Function {
    pub name: String,
    pub params: Vec<Param>,
    pub results: Results,
}

/// The key of an import or export of a world.
#[derive(Clone, Debug, PartialEq, Eq)]
pub enum WorldKey {
    /// A plain name.
    Name(String),
    /// An interface, which is shown under its qualified name.
    Interface(InterfaceId),
}

/// What a world imports or exports under a key.
#[derive(Clone, Debug, PartialEq, Eq)]
pub enum WorldItem {
    Interface(InterfaceId),
    Function(Function),
    Type(TypeId),
}

/// A world: its imports and its exports, each in the order of declaration.
#[derive(Clone, Debug, PartialEq, Eq)]
pub struct World {
    pub name: String,
    pub imports: Vec<(WorldKey, WorldItem)>,
    pub exports: Vec<(WorldKey, WorldItem)>,
}

/// An interface: its types and functions, and the package that owns it.
#[derive(Clone, Debug, PartialEq, Eq)]
pub struct Interface {
    /// `None` for an interface declared inline in a world.
    pub name: Option<String>,
    pub package: Option<PackageId>,
    pub types: Vec<TypeId>,
    pub functions: Vec<Function>,
}

/// A package: `namespace:name`, with the text of its version if it has one.
#[derive(Clone, Debug, PartialEq, Eq)]
pub struct Package {
    pub namespace: String,
    pub name: String,
    pub version: Option<String>,
}

/// The items of one kind. An identifier finds an item here if it carries this
/// arena's tag and its index is in range.
#[derive(Clone, Debug, PartialEq, Eq)]
pub struct Arena<T> {
    pub tag: u32,
    pub items: Vec<T>,
}

/// Everything that a component's interface description resolves to.
#[derive(Clone, Debug, PartialEq, Eq)]
pub struct Graph {
    pub worlds: Arena<World>,
    pub interfaces: Arena<Interface>,
    pub types: Arena<TypeDef>,
    pub packages: Arena<Package>,
}

/// A parameter as a mathematical value.
pub struct ParamView {
    pub name: Seq<char>,
    pub ty: Type,
}

/// The results of a function as a mathematical value.
pub enum ResultsView {
    Named(Seq<ParamView>),
    Anon(Type),
}

/// A function as a mathematical value.
pub struct FunctionView {
    pub name: Seq<char>,
    pub params: Seq<ParamView>,
    pub results: ResultsView,
}

/// A key as a mathematical value.
pub enum WorldKeyView {
    Name(Seq<char>),
    Interface(InterfaceId),
}

/// An item as a mathematical value.
pub enum WorldItemView {
    Interface(InterfaceId),
    Function(FunctionView),
    Type(TypeId),
}

/// A world as a mathematical value: its imports and exports as sequences
/// of entries, each a key and an item.
pub struct WorldView {
    pub name: Seq<char>,
    pub imports: Seq<(WorldKeyView, WorldItemView)>,
    pub exports: Seq<(WorldKeyView, WorldItemView)>,
}

/// An interface as a mathematical value.
pub struct InterfaceView {
    pub name: Option<Seq<char>>,
    pub package: Option<PackageId>,
    pub types: Seq<TypeId>,
    pub functions: Seq<FunctionView>,
}

/// A package as a mathematical value.
pub struct PackageView {
    pub namespace: Seq<char>,
    pub name: Seq<char>,
    pub version: Option<Seq<char>>,
}

/// An arena as a mathematical value: its tag and its items in order.
pub struct ArenaView<V> {
    pub tag: u32,
    pub items: Seq<V>,
}

/// A graph as a mathematical value.
pub struct GraphView {
    pub worlds: ArenaView<WorldView>,
    pub interfaces: ArenaView<InterfaceView>,
    pub types: ArenaView<TypeDefView>,
    pub packages: ArenaView<PackageView>,
}

impl View for Param {
    type V = ParamView;

    open spec fn view(&self) -> ParamView {
        ParamView { name: self.name@, ty: self.ty }
    }
}

impl View for Results {
    type V = ResultsView;

    open spec fn view(&self) -> ResultsView {
        match *self {
            Results::Named(params) => ResultsView::Named(seq_view(params@)),
            Results::Anon(ty) => ResultsView::Anon(ty),
        }
    }
}

impl View for Function {
    type V = FunctionView;

    open spec fn view(&self) -> FunctionView {
        FunctionView { name: self.name@, params: seq_view(self.params@), results: self.results@ }
    }
}

impl View for WorldKey {
    type V = WorldKeyView;

    open spec fn view(&self) -> WorldKeyView {
        match *self {
            WorldKey::Name(name) => WorldKeyView::Name(name@),
            WorldKey::Interface(id) => WorldKeyView::Interface(id),
        }
    }
}

impl View for WorldItem {
    type V = WorldItemView;

    open spec fn view(&self) -> WorldItemView {
        match *self {
            WorldItem::Interface(id) => WorldItemView::Interface(id),
            WorldItem::Function(function) => WorldItemView::Function(function@),
            WorldItem::Type(id) => WorldItemView::Type(id),
        }
    }
}

/// The entries of a world as mathematical values, in order.
pub open spec fn entries_view(entries: Seq<(WorldKey, WorldItem)>) -> Seq<
    (WorldKeyView, WorldItemView),
> {
    Seq::new(entries.len(), |i: int| (entries[i].0@, entries[i].1@))
}

impl View for World {
    type V = WorldView;

    open spec fn view(&self) -> WorldView {
        WorldView {
            name: self.name@,
            imports: entries_view(self.imports@),
            exports: entries_view(self.exports@),
        }
    }
}

impl View for Interface {
    type V = InterfaceView;

    open spec fn view(&self) -> InterfaceView {
        InterfaceView {
            name: opt_text(self.name),
            package: self.package,
            types: self.types@,
            functions: seq_view(self.functions@),
        }
    }
}

impl View for Package {
    type V = PackageView;

    open spec fn view(&self) -> PackageView {
        PackageView {
            namespace: self.namespace@,
            name: self.name@,
            version: opt_text(self.version),
        }
    }
}

impl<T: View> View for Arena<T> {
    type V = ArenaView<T::V>;

    open spec fn view(&self) -> ArenaView<T::V> {
        ArenaView { tag: self.tag, items: seq_view(self.items@) }
    }
}

impl View for Graph {
    type V = GraphView;

    open spec fn view(&self) -> GraphView {
        GraphView {
            worlds: self.worlds@,
            interfaces: self.interfaces@,
            types: self.types@,
            packages: self.packages@,
        }
    }
}

impl<V> ArenaView<V> {
    /// Whether the identifier made of `arena` and `index` finds an item here.
    pub open spec fn holds(self, arena: u32, index: usize) -> bool {
        arena == self.tag && index < self.items.len()
    }
}

impl<T> Arena<T> {
    /// The item that the identifier made of `arena` and `index` names, if it
    /// is one of this arena.
    pub fn get(&self, arena: u32, index: usize) -> (item: Option<&T>)
        ensures
            item is Some <==> arena == self.tag && index < self.items@.len(),
            item matches Some(found) ==> *found == self.items@[index as int],
    {
        if arena == self.tag && index < self.items.len() {
            Some(&self.items[index])
        } else {
            None
        }
    }
}

impl GraphView {
    /// Whether `id` names a type definition of this graph.
    pub open spec fn has_type(self, id: TypeId) -> bool {
        self.types.holds(id.arena, id.index)
    }

    /// Whether `id` names an interface of this graph.
    pub open spec fn has_interface(self, id: InterfaceId) -> bool {
        self.interfaces.holds(id.arena, id.index)
    }

    /// Whether `id` names a package of this graph.
    pub open spec fn has_package(self, id: PackageId) -> bool {
        self.packages.holds(id.arena, id.index)
    }

    /// Whether `id` names a world of this graph.
    pub open spec fn has_world(self, id: WorldId) -> bool {
        self.worlds.holds(id.arena, id.index)
    }

    /// The type definition that `id` names.
    pub open spec fn type_def(self, id: TypeId) -> TypeDefView
        recommends
            self.has_type(id),
    {
        self.types.items[id.index as int]
    }

    /// The interface that `id` names.
    pub open spec fn interface(self, id: InterfaceId) -> InterfaceView
        recommends
            self.has_interface(id),
    {
        self.interfaces.items[id.index as int]
    }

    /// The package that `id` names.
    pub open spec fn package(self, id: PackageId) -> PackageView
        recommends
            self.has_package(id),
    {
        self.packages.items[id.index as int]
    }

    /// The world that `id` names.
    pub open spec fn world(self, id: WorldId) -> WorldView
        recommends
            self.has_world(id),
    {
        self.worlds.items[id.index as int]
    }

    /// The package that owns the interface `id`, where the interface is in
    /// the graph, names a package, and that package is in the graph.
    pub open spec fn owner_of(self, id: InterfaceId) -> Option<PackageView> {
        if self.has_interface(id) {
            match self.interface(id).package {
                Some(package) => if self.has_package(package) {
                    Some(self.package(package))
                } else {
                    None
                },
                None => None,
            }
        } else {
            None
        }
    }
}

impl Graph {
    /// The type definition that `id` names, if it is one of this graph.
    pub fn type_def(&self, id: TypeId) -> (def: Option<&TypeDef>)
        ensures
            def is Some <==> self@.has_type(id),
            def matches Some(found) ==> found@ == self@.type_def(id),
    {
        self.types.get(id.arena, id.index)
    }

    /// The interface that `id` names, if it is one of this graph.
    pub fn interface(&self, id: InterfaceId) -> (interface: Option<&Interface>)
        ensures
            interface is Some <==> self@.has_interface(id),
            interface matches Some(found) ==> found@ == self@.interface(id),
    {
        self.interfaces.get(id.arena, id.index)
    }

    /// The package that `id` names, if it is one of this graph.
    pub fn package(&self, id: PackageId) -> (package: Option<&Package>)
        ensures
            package is Some <==> self@.has_package(id),
            package matches Some(found) ==> found@ == self@.package(id),
    {
        self.packages.get(id.arena, id.index)
    }

    /// The world that `id` names, if it is one of this graph.
    pub fn world(&self, id: WorldId) -> (world: Option<&World>)
        ensures
            world is Some <==> self@.has_world(id),
            world matches Some(found) ==> found@ == self@.world(id),
    {
        self.worlds.get(id.arena, id.index)
    }

    /// The package that owns the interface `id`.
    pub fn owner_of(&self, id: InterfaceId) -> (owner: Option<&Package>)
        ensures
            owner is Some <==> self@.owner_of(id) is Some,
            owner matches Some(found) ==> self@.owner_of(id) == Some(found@),
    {
        match self.interface(id) {
            Some(interface) => match interface.package {
                Some(package) => self.package(package),
                None => None,
            },
            None => None,
        }
    }
}

} // verus!
