//! Type references and type definitions, and their mathematical views.

use vstd::prelude::*;

use crate::ids::{InterfaceId, TypeId, WorldId};
use crate::views::{opt_text, seq_view};

verus! {

/// How much of a named aggregate (an enum or a record) is written out.
#[derive(Clone, Copy, Debug, PartialEq, Eq, Structural)]
pub enum Expansion {
    /// The full body, one case or field per line. The number is the
    /// indentation level of the body's lines; the closing brace stands one
    /// level further out.
    Expanded(u8),
    /// The declared name alone.
    Collapsed,
}

/// A reference to a type: a primitive scalar, or a definition in the graph.
#[derive(Clone, Copy, Debug, PartialEq, Eq, Structural)]
pub enum Type {
    Bool,
    U8,
    U16,
    U32,
    U64,
    S8,
    S16,
    S32,
    S64,
    Float32,
    Float64,
    Char,
    String,
    Id(TypeId),
}

/// A field of a record.
#[derive(Clone, Debug, PartialEq, Eq)]
pub struct Field {
    pub name: String,
    pub ty: Type,
}

/// The structure of a type definition.
#[derive(Clone, Debug, PartialEq, Eq)]
pub enum TypeDefKind {
    Record(Vec<Field>),
    Resource,
    Handle,
    Flags,
    Tuple(Vec<Type>),
    Variant,
    Enum(Vec<String>),
    Option(Type),
    Result { ok: Option<Type>, err: Option<Type> },
    List(Type),
    Future,
    Stream,
    /// Another name for the type referred to.
    Type(Type),
    Unknown,
}

/// What a type definition belongs to.
#[derive(Clone, Copy, Debug, PartialEq, Eq, Structural)]
pub enum TypeOwner {
    World(WorldId),
    Interface(InterfaceId),
    /// An anonymous type, which belongs to neither.
    Unowned,
}

/// A type definition: named or anonymous.
#[derive(Clone, Debug, PartialEq, Eq)]
pub struct TypeDef {
    pub name: Option<String>,
    pub kind: TypeDefKind,
    pub owner: TypeOwner,
}

/// A record field as a mathematical value.
pub struct FieldView {
    pub name: Seq<char>,
    pub ty: Type,
}

/// The structure of a type definition as a mathematical value.
pub enum TypeDefKindView {
    Record(Seq<FieldView>),
    Resource,
    Handle,
    Flags,
    Tuple(Seq<Type>),
    Variant,
    Enum(Seq<Seq<char>>),
    Option(Type),
    Result { ok: Option<Type>, err: Option<Type> },
    List(Type),
    Future,
    Stream,
    Type(Type),
    Unknown,
}

/// A type definition as a mathematical value.
pub struct TypeDefView {
    pub name: Option<Seq<char>>,
    pub kind: TypeDefKindView,
    pub owner: TypeOwner,
}

impl View for Field {
    type V = FieldView;

    open spec fn view(&self) -> FieldView {
        FieldView { name: self.name@, ty: self.ty }
    }
}

impl View for TypeDefKind {
    type V = TypeDefKindView;

    open spec fn view(&self) -> TypeDefKindView {
        match *self {
            TypeDefKind::Record(fields) => TypeDefKindView::Record(seq_view(fields@)),
            TypeDefKind::Resource => TypeDefKindView::Resource,
            TypeDefKind::Handle => TypeDefKindView::Handle,
            TypeDefKind::Flags => TypeDefKindView::Flags,
            TypeDefKind::Tuple(types) => TypeDefKindView::Tuple(types@),
            TypeDefKind::Variant => TypeDefKindView::Variant,
            TypeDefKind::Enum(cases) => TypeDefKindView::Enum(seq_view(cases@)),
            TypeDefKind::Option(ty) => TypeDefKindView::Option(ty),
            TypeDefKind::Result { ok, err } => TypeDefKindView::Result { ok, err },
            TypeDefKind::List(ty) => TypeDefKindView::List(ty),
            TypeDefKind::Future => TypeDefKindView::Future,
            TypeDefKind::Stream => TypeDefKindView::Stream,
            TypeDefKind::Type(ty) => TypeDefKindView::Type(ty),
            TypeDefKind::Unknown => TypeDefKindView::Unknown,
        }
    }
}

impl View for TypeDef {
    type V = TypeDefView;

    open spec fn view(&self) -> TypeDefView {
        TypeDefView {
            name: opt_text(self.name),
            kind: self.kind@,
            owner: self.owner,
        }
    }
}

} // verus!
