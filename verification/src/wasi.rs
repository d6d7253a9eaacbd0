//! The WASI partition: which imports come from a package of the `wasi`
//! namespace, and the imports without them.
//!
//! An import is counted as WASI if its item is an interface whose owning
//! package has the namespace `wasi`. A function, a type, and an interface
//! without an owning package are not.

use vstd::prelude::*;
use vstd::string::StringExecFns;

use crate::filtering::{lemma_filter_all, lemma_filter_positions, passing};
use crate::graph::{
    entries_view, Graph, GraphView, WorldItem, WorldItemView, WorldKey, WorldKeyView,
};
use crate::querier::{Querier, QuerierView};

verus! {

/// A listing of imports under their shown names, as mathematical values.
pub open spec fn named_items_view(items: Seq<(String, &WorldItem)>) -> Seq<
    (Seq<char>, WorldItemView),
> {
    Seq::new(items.len(), |i: int| (items[i].0@, items[i].1@))
}

/// A listing of imports by reference, as mathematical values.
pub open spec fn entry_refs_view(items: Seq<(&WorldKey, &WorldItem)>) -> Seq<
    (WorldKeyView, WorldItemView),
> {
    Seq::new(items.len(), |i: int| (items[i].0@, items[i].1@))
}

impl GraphView {
    /// Whether `item` is an interface owned by a package of the namespace
    /// `wasi`.
    pub open spec fn is_wasi(self, item: WorldItemView) -> bool {
        match item {
            WorldItemView::Interface(id) => match self.owner_of(id) {
                Some(package) => package.namespace == "wasi"@,
                None => false,
            },
            _ => false,
        }
    }

    /// The test that an entry passes if WASI is included or the entry's item
    /// is not WASI.
    pub open spec fn passes(self, include_wasi: bool) -> spec_fn(
        (WorldKeyView, WorldItemView),
    ) -> bool {
        |entry: (WorldKeyView, WorldItemView)| include_wasi || !self.is_wasi(entry.1)
    }

    /// An entry under the name that its key is shown as.
    pub open spec fn shown(self) -> spec_fn((WorldKeyView, WorldItemView)) -> (
        Seq<char>,
        WorldItemView,
    ) {
        |entry: (WorldKeyView, WorldItemView)| (self.key_name(entry.0), entry.1)
    }
}

impl QuerierView {
    /// Whether some import of the world is WASI.
    pub open spec fn imports_wasi(self) -> bool {
        exists|i: int|
            0 <= i < self.world().imports.len() && self.graph.is_wasi(
                (#[trigger] self.world().imports[i]).1,
            )
    }

    /// The imports of the world in their order; without those that are WASI
    /// unless `include_wasi`.
    pub open spec fn imports(self, include_wasi: bool) -> Seq<(WorldKeyView, WorldItemView)> {
        self.world().imports.filter(self.graph.passes(include_wasi))
    }

    /// The imports of the world that are not WASI, in their order, each
    /// under the name that its key is shown as.
    pub open spec fn non_wasi_imports(self) -> Seq<(Seq<char>, WorldItemView)> {
        self.imports(false).map_values(self.graph.shown())
    }
}

impl QuerierView {
    /// A world without imports imports nothing from WASI.
    pub proof fn lemma_no_imports_no_wasi(self)
        requires
            self.world().imports.len() == 0,
        ensures
            !self.imports_wasi(),
    {
    }

    /// An import that is no interface, or whose interface has no owning
    /// package in the graph, is not WASI.
    pub proof fn lemma_unowned_is_not_wasi(self, item: WorldItemView)
        requires
            item matches WorldItemView::Interface(id) ==> self.graph.owner_of(id) is None,
        ensures
            !self.graph.is_wasi(item),
    {
    }

    /// With WASI included the listing is the world's imports as they are.
    pub proof fn lemma_imports_with_wasi(self)
        ensures
            self.imports(true) == self.world().imports,
    {
        lemma_filter_all(self.world().imports, self.graph.passes(true));
    }

    /// Where nothing is imported from WASI, leaving WASI out leaves nothing
    /// out.
    pub proof fn lemma_imports_without_wasi(self)
        requires
            !self.imports_wasi(),
        ensures
            self.imports(false) == self.world().imports,
    {
        lemma_filter_all(self.world().imports, self.graph.passes(false));
    }

    /// The listing without WASI holds every import that is not WASI, and
    /// nothing else, in the world's order. The proof gives, for each place
    /// of the listing, the position of its import in the world.
    pub proof fn lemma_non_wasi_imports(self) -> (at: Seq<int>)
        ensures
            at.len() == self.non_wasi_imports().len(),
            forall|j: int, k: int| 0 <= j < k < at.len() ==> at[j] < at[k],
            forall|k: int|
                0 <= k < at.len() ==> 0 <= (#[trigger] at[k]) < self.world().imports.len()
                    && !self.graph.is_wasi(self.world().imports[at[k]].1)
                    && self.non_wasi_imports()[k] == (
                    self.graph.key_name(self.world().imports[at[k]].0),
                    self.world().imports[at[k]].1,
                ),
            forall|i: int|
                0 <= i < self.world().imports.len() && !self.graph.is_wasi(
                    (#[trigger] self.world().imports[i]).1,
                ) ==> at.contains(i),
    {
        let imports = self.world().imports;
        let test = self.graph.passes(false);
        lemma_filter_positions(imports, test);
        passing(imports, test)
    }
}

/// Asking again gives the same listing: two listings of one querier's
/// imports without WASI hold the same names and items in the same order.
pub proof fn lemma_listing_is_repeatable(
    querier: QuerierView,
    first: Seq<(String, &WorldItem)>,
    second: Seq<(String, &WorldItem)>,
)
    requires
        named_items_view(first) == querier.non_wasi_imports(),
        named_items_view(second) == querier.non_wasi_imports(),
    ensures
        named_items_view(first) == named_items_view(second),
{
}

impl Graph {
    /// Decides [`GraphView::is_wasi`].
    pub fn is_wasi(&self, item: &WorldItem) -> (b: bool)
        ensures
            b == self@.is_wasi(item@),
    {
        match item {
            WorldItem::Interface(id) => match self.owner_of(*id) {
                Some(package) => {
                    let marker = String::from_str("wasi");
                    package.namespace == marker
                },
                None => false,
            },
            _ => false,
        }
    }
}

impl Querier {
    /// Whether the world imports anything from WASI.
    pub fn imports_wasi(&self) -> (b: bool)
        ensures
            b == self@.imports_wasi(),
    {
        let graph = self.graph();
        let imports = &self.world().imports;
        let ghost entries = self@.world().imports;
        let mut i: usize = 0;
        while i < imports.len()
            invariant
                i <= imports.len(),
                graph@ == self@.graph,
                entries == self@.world().imports,
                entries == entries_view(imports@),
                forall|j: int| 0 <= j < i ==> !self@.graph.is_wasi((#[trigger] entries[j]).1),
            decreases imports.len() - i,
        {
            let entry = &imports[i];
            assert(entries[i as int] == (entry.0@, entry.1@));
            if graph.is_wasi(&entry.1) {
                return true;
            }
            i = i + 1;
        }
        false
    }

    /// The imports of the world in their order, without those that are WASI
    /// unless `include_wasi`.
    pub fn imports(&self, include_wasi: bool) -> (kept: Vec<(&WorldKey, &WorldItem)>)
        ensures
            entry_refs_view(kept@) == self@.imports(include_wasi),
    {
        let graph = self.graph();
        let imports = &self.world().imports;
        let ghost entries = self@.world().imports;
        let ghost test = self@.graph.passes(include_wasi);
        let mut kept: Vec<(&WorldKey, &WorldItem)> = Vec::new();
        let mut i: usize = 0;
        assert(entry_refs_view(kept@) =~= entries.take(0).filter(test)) by {
            reveal(Seq::filter);
        }
        while i < imports.len()
            invariant
                i <= imports.len(),
                graph@ == self@.graph,
                entries == self@.world().imports,
                entries == entries_view(imports@),
                test == self@.graph.passes(include_wasi),
                entry_refs_view(kept@) == entries.take(i as int).filter(test),
            decreases imports.len() - i,
        {
            let entry = &imports[i];
            proof {
                entries.lemma_take_succ_push(i as int);
                entries.take(i as int).lemma_filter_push(entries[i as int], test);
            }
            if include_wasi || !graph.is_wasi(&entry.1) {
                kept.push((&entry.0, &entry.1));
            }
            i = i + 1;
        }
        assert(entries.take(i as int) =~= entries);
        kept
    }

    /// The imports of the world that are not WASI, in their order, each
    /// under the name that its key is shown as.
    pub fn non_wasi_imports(&self) -> (kept: Vec<(String, &WorldItem)>)
        ensures
            named_items_view(kept@) == self@.non_wasi_imports(),
    {
        let graph = self.graph();
        let imports = &self.world().imports;
        let ghost entries = self@.world().imports;
        let ghost test = self@.graph.passes(false);
        let ghost shown = self@.graph.shown();
        let mut kept: Vec<(String, &WorldItem)> = Vec::new();
        let mut i: usize = 0;
        assert(named_items_view(kept@) =~= entries.take(0).filter(test).map_values(shown)) by {
            reveal(Seq::filter);
        }
        while i < imports.len()
            invariant
                i <= imports.len(),
                graph@ == self@.graph,
                self@.well_formed(),
                entries == self@.world().imports,
                entries == entries_view(imports@),
                test == self@.graph.passes(false),
                shown == self@.graph.shown(),
                named_items_view(kept@) == entries.take(i as int).filter(test).map_values(shown),
            decreases imports.len() - i,
        {
            let entry = &imports[i];
            let ghost before = named_items_view(kept@);
            proof {
                entries.lemma_take_succ_push(i as int);
                entries.take(i as int).lemma_filter_push(entries[i as int], test);
                self@.graph.lemma_keys_are_named(self@.world_id.index as int, i as int);
            }
            if !graph.is_wasi(&entry.1) {
                let name = graph.name_world_key(&entry.0);
                kept.push((name, &entry.1));
                assert(entries.take(i as int).filter(test).push(entries[i as int]).map_values(shown)
                    =~= before.push(shown(entries[i as int])));
            }
            i = i + 1;
        }
        assert(entries.take(i as int) =~= entries);
        kept
    }
}

} // verus!
