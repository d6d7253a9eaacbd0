//! Identifiers of the items of a graph.
//!
//! An identifier names an arena and a position in it. Two identifiers are the
//! same only if both agree, so an identifier taken from one graph finds
//! nothing in another graph.

use vstd::prelude::*;

verus! {

/// Identifies a type definition.
#[derive(Clone, Copy, Debug, PartialEq, Eq, Structural, Hash)]
pub struct TypeId {
    pub arena: u32,
    pub index: usize,
}

/// Identifies an interface.
#[derive(Clone, Copy, Debug, PartialEq, Eq, Structural, Hash)]
pub struct InterfaceId {
    pub arena: u32,
    pub index: usize,
}

/// Identifies a package.
#[derive(Clone, Copy, Debug, PartialEq, Eq, Structural, Hash)]
pub struct PackageId {
    pub arena: u32,
    pub index: usize,
}

/// Identifies a world.
#[derive(Clone, Copy, Debug, PartialEq, Eq, Structural, Hash)]
pub struct WorldId {
    pub arena: u32,
    pub index: usize,
}

} // verus!
