//! Queries over the interface surface of a WebAssembly component.
//!
//! A [`Graph`] holds the packages, interfaces, types and worlds that a
//! component's interface description resolves to. A [`Querier`] selects one
//! world of a graph and answers what that world imports and exports, renders
//! type references as WIT text, and checks an import of one component against
//! the export of the same name in another.

pub mod compat;
pub mod filtering;
pub mod graph;
pub mod ids;
pub mod links;
pub mod naming;
pub mod querier;
pub mod render;
pub mod text;
pub mod types;
pub mod views;
pub mod wasi;

pub use compat::{Decoded, QueryError};
pub use graph::{
    Arena, Function, Graph, Interface, Package, Param, Results, World, WorldItem, WorldKey,
};
pub use ids::{InterfaceId, PackageId, TypeId, WorldId};
pub use querier::Querier;
pub use types::{Expansion, Field, Type, TypeDef, TypeDefKind, TypeOwner};
