//! The names under which interfaces and world keys are shown.
//!
//! An interface of a package is shown as `namespace:name/interface`, and as
//! `namespace:name/interface@version` where the package has a version.

use vstd::prelude::*;
use vstd::string::StringExecFns;

use crate::graph::{Graph, GraphView, Package, PackageView, WorldKey, WorldKeyView};
use crate::ids::InterfaceId;
use crate::views::opt_text;

verus! {

/// The qualified name of the interface called `interface` in `package`.
pub open spec fn interface_id(package: PackageView, interface: Seq<char>) -> Seq<char> {
    package.namespace + ":"@ + package.name + "/"@ + interface + match package.version {
        Some(version) => "@"@ + version,
        None => Seq::empty(),
    }
}

impl GraphView {
    /// The qualified name of the interface `id`: there is one if the
    /// interface is in the graph, has a name, and its package is in the
    /// graph.
    pub open spec fn id_of(self, id: InterfaceId) -> Option<Seq<char>> {
        match self.owner_of(id) {
            Some(package) => match self.interface(id).name {
                Some(name) => Some(interface_id(package, name)),
                None => None,
            },
            None => None,
        }
    }

    /// Whether a key has a name to show: a plain name always has, an
    /// interface if it has a qualified name.
    pub open spec fn key_named(self, key: WorldKeyView) -> bool {
        match key {
            WorldKeyView::Name(_) => true,
            WorldKeyView::Interface(id) => self.id_of(id) is Some,
        }
    }

    /// The name under which a key is shown.
    pub open spec fn key_name(self, key: WorldKeyView) -> Seq<char> {
        match key {
            WorldKeyView::Name(name) => name,
            WorldKeyView::Interface(id) => match self.id_of(id) {
                Some(name) => name,
                None => Seq::empty(),
            },
        }
    }

    /// In a well-formed graph every key of every world has a name to show.
    pub proof fn lemma_keys_are_named(self, world: int, entry: int)
        requires
            self.well_formed(),
            0 <= world < self.worlds.items.len(),
        ensures
            0 <= entry < self.worlds.items[world].imports.len() ==> self.key_named(
                self.worlds.items[world].imports[entry].0,
            ),
            0 <= entry < self.worlds.items[world].exports.len() ==> self.key_named(
                self.worlds.items[world].exports[entry].0,
            ),
    {
        let w = self.worlds.items[world];
        if 0 <= entry < w.imports.len() {
            self.lemma_linked_key_is_named(w.imports[entry].0);
        }
        if 0 <= entry < w.exports.len() {
            self.lemma_linked_key_is_named(w.exports[entry].0);
        }
    }

    /// A key whose interface is in a well-formed graph and has a name has a
    /// qualified name.
    pub proof fn lemma_linked_key_is_named(self, key: WorldKeyView)
        requires
            self.well_formed(),
            self.key_linked(key),
        ensures
            self.key_named(key),
    {
    }
}

impl Package {
    /// The qualified name of the interface called `interface` in this
    /// package.
    pub fn interface_id(&self, interface: &str) -> (s: String)
        ensures
            s@ == interface_id(self@, interface@),
    {
        let mut s = self.namespace.clone();
        s.append(":");
        s.append(self.name.as_str());
        s.append("/");
        s.append(interface);
        match &self.version {
            Some(version) => {
                let mut suffix = String::from_str("@");
                suffix.append(version.as_str());
                s.append(suffix.as_str());
            },
            None => {},
        }
        s
    }
}

impl Graph {
    /// The qualified name of the interface `id`, if it has one.
    pub fn id_of(&self, id: InterfaceId) -> (name: Option<String>)
        ensures
            opt_text(name) == self@.id_of(id),
    {
        match self.owner_of(id) {
            Some(package) => {
                let interface = self.interface(id).unwrap();
                match &interface.name {
                    Some(name) => Some(package.interface_id(name.as_str())),
                    None => None,
                }
            },
            None => None,
        }
    }

    /// The name under which `key` is shown.
    pub fn name_world_key(&self, key: &WorldKey) -> (name: String)
        requires
            self@.key_named(key@),
        ensures
            name@ == self@.key_name(key@),
    {
        match key {
            WorldKey::Name(name) => name.clone(),
            WorldKey::Interface(id) => self.id_of(*id).unwrap(),
        }
    }
}

} // verus!
