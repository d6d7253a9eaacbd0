//! What holds a graph together: every identifier that an interface or a
//! world refers to finds its item, keys can be shown, and the imports and
//! the exports of a world are mappings.

use vstd::prelude::*;

use crate::graph::{
    entries_view, Graph, GraphView, Interface, InterfaceView, World, WorldItem, WorldItemView,
    WorldKey, WorldKeyView, WorldView,
};

verus! {

/// No key occurs twice among the entries.
pub open spec fn keys_distinct(entries: Seq<(WorldKeyView, WorldItemView)>) -> bool {
    forall|i: int, j: int|
        0 <= i < j < entries.len() ==> (#[trigger] entries[i]).0 != (#[trigger] entries[j]).0
}

impl GraphView {
    /// An interface's link holds if its package, where it names one, is in
    /// the graph; an interface with a name has a package.
    pub open spec fn interface_linked(self, interface: InterfaceView) -> bool {
        match interface.package {
            Some(package) => self.has_package(package),
            None => interface.name is None,
        }
    }

    /// A key can be shown if it is a plain name, or an interface of the graph
    /// that has a name.
    pub open spec fn key_linked(self, key: WorldKeyView) -> bool {
        match key {
            WorldKeyView::Name(_) => true,
            WorldKeyView::Interface(id) => self.has_interface(id) && self.interface(id).name
                is Some,
        }
    }

    /// An interface item must be in the graph.
    pub open spec fn item_linked(self, item: WorldItemView) -> bool {
        match item {
            WorldItemView::Interface(id) => self.has_interface(id),
            _ => true,
        }
    }

    /// Every key of the entries can be shown and every item is linked.
    pub open spec fn entries_linked(self, entries: Seq<(WorldKeyView, WorldItemView)>) -> bool {
        forall|i: int|
            0 <= i < entries.len() ==> self.key_linked((#[trigger] entries[i]).0)
                && self.item_linked(entries[i].1)
    }

    /// A world holds together if its imports and its exports are linked
    /// and are mappings: no key occurs twice among the imports, and none
    /// twice among the exports.
    pub open spec fn world_linked(self, world: WorldView) -> bool {
        &&& self.entries_linked(world.imports)
        &&& self.entries_linked(world.exports)
        &&& keys_distinct(world.imports)
        &&& keys_distinct(world.exports)
    }

    /// Every identifier that an interface or a world entry of the graph
    /// refers to finds its item in the graph, every interface that is a key
    /// has a name and a package, and no world has a key twice among its
    /// imports or twice among its exports.
    pub open spec fn well_formed(self) -> bool {
        &&& forall|i: int|
            0 <= i < self.interfaces.items.len() ==> self.interface_linked(
                #[trigger] self.interfaces.items[i],
            )
        &&& forall|i: int|
            0 <= i < self.worlds.items.len() ==> self.world_linked(#[trigger] self.worlds.items[i])
    }
}

impl WorldKey {
    /// Whether two keys are the same key.
    pub fn same(&self, other: &WorldKey) -> (b: bool)
        ensures
            b == (self@ == other@),
    {
        match (self, other) {
            (WorldKey::Name(a), WorldKey::Name(b)) => *a == *b,
            (WorldKey::Interface(a), WorldKey::Interface(b)) => *a == *b,
            _ => false,
        }
    }
}

/// Decides [`keys_distinct`].
fn keys_are_distinct(entries: &Vec<(WorldKey, WorldItem)>) -> (b: bool)
    ensures
        b == keys_distinct(entries_view(entries@)),
{
    let ghost views = entries_view(entries@);
    let mut i: usize = 0;
    while i < entries.len()
        invariant
            i <= entries.len(),
            views == entries_view(entries@),
            forall|a: int, b: int|
                0 <= a < i && a < b < views.len() ==> (#[trigger] views[a]).0 != (
                #[trigger] views[b]).0,
        decreases entries.len() - i,
    {
        let mut j: usize = i + 1;
        while j < entries.len()
            invariant
                i < j <= entries.len(),
                views == entries_view(entries@),
                forall|b: int| i < b < j ==> views[i as int].0 != (#[trigger] views[b]).0,
            decreases entries.len() - j,
        {
            assert(views[i as int] == (entries@[i as int].0@, entries@[i as int].1@));
            assert(views[j as int] == (entries@[j as int].0@, entries@[j as int].1@));
            if entries[i].0.same(&entries[j].0) {
                return false;
            }
            j = j + 1;
        }
        i = i + 1;
    }
    true
}

impl Graph {
    /// Decides [`GraphView::interface_linked`].
    fn interface_is_linked(&self, interface: &Interface) -> (b: bool)
        ensures
            b == self@.interface_linked(interface@),
    {
        match interface.package {
            Some(package) => self.package(package).is_some(),
            None => interface.name.is_none(),
        }
    }

    /// Decides [`GraphView::key_linked`].
    fn key_is_linked(&self, key: &WorldKey) -> (b: bool)
        ensures
            b == self@.key_linked(key@),
    {
        match key {
            WorldKey::Name(_) => true,
            WorldKey::Interface(id) => match self.interface(*id) {
                Some(interface) => interface.name.is_some(),
                None => false,
            },
        }
    }

    /// Decides [`GraphView::item_linked`].
    fn item_is_linked(&self, item: &WorldItem) -> (b: bool)
        ensures
            b == self@.item_linked(item@),
    {
        match item {
            WorldItem::Interface(id) => self.interface(*id).is_some(),
            _ => true,
        }
    }

    /// Decides [`GraphView::entries_linked`].
    fn entries_are_linked(&self, entries: &Vec<(WorldKey, WorldItem)>) -> (b: bool)
        ensures
            b == self@.entries_linked(entries_view(entries@)),
    {
        let ghost views = entries_view(entries@);
        let mut i: usize = 0;
        while i < entries.len()
            invariant
                i <= entries.len(),
                views == entries_view(entries@),
                forall|j: int|
                    0 <= j < i ==> self@.key_linked((#[trigger] views[j]).0) && self@.item_linked(
                        views[j].1,
                    ),
            decreases entries.len() - i,
        {
            let entry = &entries[i];
            assert(views[i as int] == (entry.0@, entry.1@));
            if !self.key_is_linked(&entry.0) || !self.item_is_linked(&entry.1) {
                return false;
            }
            i = i + 1;
        }
        true
    }

    /// Decides [`GraphView::world_linked`].
    fn world_is_linked(&self, world: &World) -> (b: bool)
        ensures
            b == self@.world_linked(world@),
    {
        self.entries_are_linked(&world.imports) && self.entries_are_linked(&world.exports)
            && keys_are_distinct(&world.imports) && keys_are_distinct(&world.exports)
    }

    /// Decides [`GraphView::well_formed`].
    pub fn is_well_formed(&self) -> (b: bool)
        ensures
            b == self@.well_formed(),
    {
        let mut i: usize = 0;
        while i < self.interfaces.items.len()
            invariant
                i <= self.interfaces.items.len(),
                forall|j: int|
                    0 <= j < i ==> self@.interface_linked(#[trigger] self@.interfaces.items[j]),
            decreases self.interfaces.items.len() - i,
        {
            let interface = &self.interfaces.items[i];
            assert(interface@ == self@.interfaces.items[i as int]);
            if !self.interface_is_linked(interface) {
                return false;
            }
            i = i + 1;
        }
        let mut k: usize = 0;
        while k < self.worlds.items.len()
            invariant
                k <= self.worlds.items.len(),
                forall|j: int|
                    0 <= j < self@.interfaces.items.len() ==> self@.interface_linked(
                        #[trigger] self@.interfaces.items[j],
                    ),
                forall|j: int|
                    0 <= j < k ==> self@.world_linked(#[trigger] self@.worlds.items[j]),
            decreases self.worlds.items.len() - k,
        {
            let world = &self.worlds.items[k];
            assert(world@ == self@.worlds.items[k as int]);
            if !self.world_is_linked(world) {
                return false;
            }
            k = k + 1;
        }
        true
    }
}

} // verus!
