//! WIT text of type references and type definitions.
//!
//! A reference is followed into the graph's type arena. `depth` bounds how
//! many references may be followed one inside the other; with the number of
//! definitions of the arena as the bound, every chain that does not run in a
//! circle fits.

use vstd::prelude::*;

use vstd::string::StringExecFns;

use crate::graph::{ArenaView, Graph, GraphView};
use crate::ids::TypeId;
use crate::querier::Querier;
use crate::text::{enclose, indentation, join, join_strings, spaces};
use crate::types::{
    Expansion, Field, FieldView, Type, TypeDef, TypeDefKind, TypeDefKindView, TypeDefView,
};
use crate::views::seq_view;

verus! {

/// The WIT keyword of a primitive scalar.
pub open spec fn keyword(ty: Type) -> Seq<char> {
    match ty {
        Type::Bool => "bool"@,
        Type::U8 => "u8"@,
        Type::U16 => "u16"@,
        Type::U32 => "u32"@,
        Type::U64 => "u64"@,
        Type::S8 => "s8"@,
        Type::S16 => "s16"@,
        Type::S32 => "s32"@,
        Type::S64 => "s64"@,
        Type::Float32 => "float32"@,
        Type::Float64 => "float64"@,
        Type::Char => "char"@,
        Type::String => "string"@,
        Type::Id(_) => Seq::empty(),
    }
}

/// Each line behind `4 * level` spaces.
pub open spec fn indented(lines: Seq<Seq<char>>, level: nat) -> Seq<Seq<char>> {
    Seq::new(lines.len(), |i: int| spaces(4 * level) + lines[i])
}

/// The expanded body of an aggregate: the opening line, the lines of the
/// body at `level`, separated by a comma and a line break, and the closing
/// brace one level further out.
pub open spec fn block_text(opening: Seq<char>, lines: Seq<Seq<char>>, level: nat) -> Seq<char> {
    opening + join(indented(lines, level), ",\n"@) + "\n"@ + spaces((4 * (level - 1)) as nat)
        + "}"@
}

/// Whether a reference can be rendered: every definition on the way is in
/// the arena within `depth` steps, is of a kind that has a text, has a name
/// where only its name is asked for, and stands at level 1 or deeper where
/// its body is asked for.
pub open spec fn type_renders(
    types: ArenaView<TypeDefView>,
    ty: Type,
    mode: Expansion,
    depth: nat,
) -> bool
    decreases depth, 0nat,
{
    match ty {
        Type::Id(id) => types.holds(id.arena, id.index) && depth > 0 && def_renders(
            types,
            types.items[id.index as int],
            mode,
            (depth - 1) as nat,
        ),
        _ => true,
    }
}

/// Whether a definition can be rendered; see [`type_renders`].
pub open spec fn def_renders(
    types: ArenaView<TypeDefView>,
    def: TypeDefView,
    mode: Expansion,
    depth: nat,
) -> bool
    decreases depth, 1nat,
{
    match def.kind {
        TypeDefKindView::Option(ty) => type_renders(types, ty, Expansion::Collapsed, depth),
        TypeDefKindView::List(ty) => type_renders(types, ty, Expansion::Collapsed, depth),
        TypeDefKindView::Type(ty) => type_renders(types, ty, mode, depth),
        TypeDefKindView::Result { ok, err } => {
            &&& ok matches Some(ty) ==> type_renders(types, ty, Expansion::Collapsed, depth)
            &&& err matches Some(ty) ==> type_renders(types, ty, Expansion::Collapsed, depth)
        },
        TypeDefKindView::Tuple(tys) => forall|i: int|
            0 <= i < tys.len() ==> type_renders(types, #[trigger] tys[i], Expansion::Collapsed, depth),
        TypeDefKindView::Enum(_) => match mode {
            Expansion::Expanded(level) => level >= 1,
            Expansion::Collapsed => def.name is Some,
        },
        TypeDefKindView::Record(fields) => match mode {
            Expansion::Expanded(level) => level >= 1 && forall|i: int|
                0 <= i < fields.len() ==> type_renders(
                    types,
                    (#[trigger] fields[i]).ty,
                    Expansion::Collapsed,
                    depth,
                ),
            Expansion::Collapsed => def.name is Some,
        },
        _ => false,
    }
}

/// The WIT text of a type reference.
pub open spec fn type_text(
    types: ArenaView<TypeDefView>,
    ty: Type,
    mode: Expansion,
    depth: nat,
) -> Seq<char>
    decreases depth, 0nat,
{
    match ty {
        Type::Id(id) => if types.holds(id.arena, id.index) && depth > 0 {
            def_text(types, types.items[id.index as int], mode, (depth - 1) as nat)
        } else {
            Seq::empty()
        },
        _ => keyword(ty),
    }
}

/// The WIT text of a type definition. What stands inside another type is
/// always collapsed; only an alias hands the mode on.
pub open spec fn def_text(
    types: ArenaView<TypeDefView>,
    def: TypeDefView,
    mode: Expansion,
    depth: nat,
) -> Seq<char>
    decreases depth, 2nat,
{
    match def.kind {
        TypeDefKindView::Option(ty) => "option<"@ + type_text(
            types,
            ty,
            Expansion::Collapsed,
            depth,
        ) + ">"@,
        TypeDefKindView::Result { ok, err } => match (ok, err) {
            (Some(ok), Some(err)) => "result<"@ + type_text(types, ok, Expansion::Collapsed, depth)
                + ", "@ + type_text(types, err, Expansion::Collapsed, depth) + ">"@,
            (Some(ty), None) => "result<"@ + type_text(types, ty, Expansion::Collapsed, depth)
                + ">"@,
            (None, Some(ty)) => "result<"@ + type_text(types, ty, Expansion::Collapsed, depth)
                + ">"@,
            (None, None) => "result"@,
        },
        TypeDefKindView::Type(ty) => type_text(types, ty, mode, depth),
        TypeDefKindView::List(ty) => "list<"@ + type_text(types, ty, Expansion::Collapsed, depth)
            + ">"@,
        TypeDefKindView::Tuple(tys) => "tuple<"@ + join(tuple_parts(types, tys, depth), ", "@)
            + ">"@,
        TypeDefKindView::Enum(cases) => match mode {
            Expansion::Expanded(level) => block_text("enum {\n"@, cases, level as nat),
            Expansion::Collapsed => name_text(def),
        },
        TypeDefKindView::Record(fields) => match mode {
            Expansion::Expanded(level) => block_text(
                "record {\n"@,
                record_lines(types, fields, depth),
                level as nat,
            ),
            Expansion::Collapsed => name_text(def),
        },
        _ => Seq::empty(),
    }
}

/// The texts of the members of a tuple, each collapsed.
pub open spec fn tuple_parts(types: ArenaView<TypeDefView>, tys: Seq<Type>, depth: nat) -> Seq<
    Seq<char>,
>
    decreases depth, 1nat,
{
    Seq::new(tys.len(), |i: int| type_text(types, tys[i], Expansion::Collapsed, depth))
}

/// The lines of a record's body: each field's name, a colon, and the text of
/// its type, collapsed.
pub open spec fn record_lines(
    types: ArenaView<TypeDefView>,
    fields: Seq<FieldView>,
    depth: nat,
) -> Seq<Seq<char>>
    decreases depth, 1nat,
{
    Seq::new(
        fields.len(),
        |i: int|
            fields[i].name + ": "@ + type_text(types, fields[i].ty, Expansion::Collapsed, depth),
    )
}

/// The declared name of a definition; empty for an anonymous one.
pub open spec fn name_text(def: TypeDefView) -> Seq<char> {
    match def.name {
        Some(name) => name,
        None => Seq::empty(),
    }
}

impl GraphView {
    /// Whether the reference `ty` has a text in this graph.
    pub open spec fn renders_type(self, ty: Type, mode: Expansion) -> bool {
        type_renders(self.types, ty, mode, self.types.items.len())
    }

    /// Whether the definition `def` has a text in this graph.
    pub open spec fn renders_def(self, def: TypeDefView, mode: Expansion) -> bool {
        def_renders(self.types, def, mode, self.types.items.len())
    }

    /// The WIT text of the reference `ty`.
    pub open spec fn wit_type(self, ty: Type, mode: Expansion) -> Seq<char> {
        type_text(self.types, ty, mode, self.types.items.len())
    }

    /// The WIT text of the definition `def`.
    pub open spec fn wit_type_def(self, def: TypeDefView, mode: Expansion) -> Seq<char> {
        def_text(self.types, def, mode, self.types.items.len())
    }
}

/// A deeper bound changes nothing: what renders within `depth` steps
/// renders within any greater number of steps, to the same text.
pub proof fn lemma_type_depth(
    types: ArenaView<TypeDefView>,
    ty: Type,
    mode: Expansion,
    depth: nat,
    deeper: nat,
)
    requires
        type_renders(types, ty, mode, depth),
        depth <= deeper,
    ensures
        type_renders(types, ty, mode, deeper),
        type_text(types, ty, mode, deeper) == type_text(types, ty, mode, depth),
    decreases depth, 0nat,
{
    match ty {
        Type::Id(id) => {
            lemma_def_depth(
                types,
                types.items[id.index as int],
                mode,
                (depth - 1) as nat,
                (deeper - 1) as nat,
            );
        },
        _ => {},
    }
}

/// A deeper bound changes nothing for a definition either.
pub proof fn lemma_def_depth(
    types: ArenaView<TypeDefView>,
    def: TypeDefView,
    mode: Expansion,
    depth: nat,
    deeper: nat,
)
    requires
        def_renders(types, def, mode, depth),
        depth <= deeper,
    ensures
        def_renders(types, def, mode, deeper),
        def_text(types, def, mode, deeper) == def_text(types, def, mode, depth),
    decreases depth, 1nat,
{
    let inner = Expansion::Collapsed;
    match def.kind {
        TypeDefKindView::Option(ty) => {
            lemma_type_depth(types, ty, inner, depth, deeper);
        },
        TypeDefKindView::List(ty) => {
            lemma_type_depth(types, ty, inner, depth, deeper);
        },
        TypeDefKindView::Type(ty) => {
            lemma_type_depth(types, ty, mode, depth, deeper);
        },
        TypeDefKindView::Result { ok, err } => {
            if let Some(ty) = ok {
                lemma_type_depth(types, ty, inner, depth, deeper);
            }
            if let Some(ty) = err {
                lemma_type_depth(types, ty, inner, depth, deeper);
            }
        },
        TypeDefKindView::Tuple(tys) => {
            assert forall|i: int| 0 <= i < tys.len() implies type_renders(
                types,
                #[trigger] tys[i],
                inner,
                deeper,
            ) && type_text(types, tys[i], inner, deeper) == type_text(types, tys[i], inner, depth) by {
                lemma_type_depth(types, tys[i], inner, depth, deeper);
            }
            assert(tuple_parts(types, tys, deeper) =~= tuple_parts(types, tys, depth));
        },
        TypeDefKindView::Record(fields) => {
            if mode is Expanded {
                assert forall|i: int| 0 <= i < fields.len() implies type_renders(
                    types,
                    (#[trigger] fields[i]).ty,
                    inner,
                    deeper,
                ) && type_text(types, fields[i].ty, inner, deeper) == type_text(
                    types,
                    fields[i].ty,
                    inner,
                    depth,
                ) by {
                    lemma_type_depth(types, fields[i].ty, inner, depth, deeper);
                }
                assert(record_lines(types, fields, deeper) =~= record_lines(types, fields, depth));
            }
        },
        _ => {},
    }
}

impl GraphView {
    /// A primitive scalar is rendered as its keyword, whatever the graph and
    /// whatever the mode.
    pub proof fn lemma_primitive_text(self, ty: Type, mode: Expansion)
        requires
            !(ty is Id),
        ensures
            self.renders_type(ty, mode),
            self.wit_type(ty, mode) == keyword(ty),
    {
    }

    /// An alias is rendered as the type that it stands for, in either mode:
    /// it can be rendered exactly when that type can, and to the same text.
    pub proof fn lemma_alias_text(self, def: TypeDefView, target: Type, mode: Expansion)
        requires
            def.kind == TypeDefKindView::Type(target),
        ensures
            self.renders_def(def, mode) == self.renders_type(target, mode),
            self.wit_type_def(def, mode) == self.wit_type(target, mode),
    {
    }

    /// A reference to an alias is rendered as the type that the alias stands
    /// for, in either mode.
    pub proof fn lemma_alias_reference_text(self, id: TypeId, target: Type, mode: Expansion)
        requires
            self.has_type(id),
            self.type_def(id).kind == TypeDefKindView::Type(target),
            self.renders_type(Type::Id(id), mode),
        ensures
            self.renders_type(target, mode),
            self.wit_type(Type::Id(id), mode) == self.wit_type(target, mode),
    {
        let depth = self.types.items.len();
        lemma_type_depth(self.types, target, mode, (depth - 1) as nat, depth);
    }

    /// A reference is rendered as the definition that it names.
    pub proof fn lemma_reference_text(self, id: TypeId, mode: Expansion)
        requires
            self.renders_type(Type::Id(id), mode),
        ensures
            self.has_type(id),
            self.renders_def(self.type_def(id), mode),
            self.wit_type(Type::Id(id), mode) == self.wit_type_def(self.type_def(id), mode),
    {
        let depth = self.types.items.len();
        lemma_def_depth(self.types, self.type_def(id), mode, (depth - 1) as nat, depth);
    }

    /// A result type is rendered by what it holds: `result<A, B>` with both
    /// types, `result<A>` with one of them, whichever it is, and `result`
    /// with none. The types inside are collapsed, whatever the mode.
    pub proof fn lemma_result_text(self, def: TypeDefView, a: Type, b: Type, mode: Expansion)
        ensures
            def.kind == (TypeDefKindView::Result { ok: Some(a), err: Some(b) })
                ==> self.wit_type_def(def, mode) == "result<"@ + self.wit_type(
                a,
                Expansion::Collapsed,
            ) + ", "@ + self.wit_type(b, Expansion::Collapsed) + ">"@,
            def.kind == (TypeDefKindView::Result { ok: Some(a), err: None })
                ==> self.wit_type_def(def, mode) == "result<"@ + self.wit_type(
                a,
                Expansion::Collapsed,
            ) + ">"@,
            def.kind == (TypeDefKindView::Result { ok: None, err: Some(b) })
                ==> self.wit_type_def(def, mode) == "result<"@ + self.wit_type(
                b,
                Expansion::Collapsed,
            ) + ">"@,
            def.kind == (TypeDefKindView::Result { ok: None, err: None }) ==> self.wit_type_def(
                def,
                mode,
            ) == "result"@,
    {
    }

    /// The type inside an option is collapsed, whatever the mode.
    pub proof fn lemma_option_text(self, def: TypeDefView, inner: Type, mode: Expansion)
        requires
            def.kind == TypeDefKindView::Option(inner),
        ensures
            self.renders_def(def, mode) == self.renders_type(inner, Expansion::Collapsed),
            self.wit_type_def(def, mode) == "option<"@ + self.wit_type(
                inner,
                Expansion::Collapsed,
            ) + ">"@,
    {
    }

    /// The type inside a list is collapsed, whatever the mode.
    pub proof fn lemma_list_text(self, def: TypeDefView, inner: Type, mode: Expansion)
        requires
            def.kind == TypeDefKindView::List(inner),
        ensures
            self.renders_def(def, mode) == self.renders_type(inner, Expansion::Collapsed),
            self.wit_type_def(def, mode) == "list<"@ + self.wit_type(inner, Expansion::Collapsed)
                + ">"@,
    {
    }

    /// A collapsed aggregate is rendered as its name.
    pub proof fn lemma_collapsed_text(self, def: TypeDefView, name: Seq<char>)
        requires
            def.kind is Enum || def.kind is Record,
            def.name == Some(name),
        ensures
            self.renders_def(def, Expansion::Collapsed),
            self.wit_type_def(def, Expansion::Collapsed) == name,
    {
    }
}

/// The expanded body of an aggregate with the given lines.
fn block(opening: &str, lines: &Vec<String>, level: u8) -> (s: String)
    requires
        level >= 1,
    ensures
        s@ == block_text(opening@, seq_view(lines@), level as nat),
{
    let indent = indentation(level as usize * 4);
    let mut padded: Vec<String> = Vec::new();
    let mut i: usize = 0;
    while i < lines.len()
        invariant
            i <= lines.len(),
            padded@.len() == i,
            indent@ == spaces(4 * (level as nat)),
            forall|j: int| 0 <= j < i ==> (#[trigger] padded@[j])@ == indent@ + lines@[j]@,
        decreases lines.len() - i,
    {
        let mut line = indent.clone();
        line.append(lines[i].as_str());
        padded.push(line);
        i = i + 1;
    }
    assert(seq_view(padded@) =~= indented(seq_view(lines@), level as nat));
    let body = join_strings(&padded, ",\n");
    let closing = indentation((level - 1) as usize * 4);
    let mut s = String::from_str(opening);
    s.append(body.as_str());
    s.append("\n");
    s.append(closing.as_str());
    s.append("}");
    s
}

impl Graph {
    /// Decides whether the reference `ty` can be rendered within `depth`
    /// steps.
    pub fn can_render_type(&self, ty: &Type, mode: Expansion, depth: usize) -> (b: bool)
        ensures
            b == type_renders(self@.types, *ty, mode, depth as nat),
        decreases depth, 0nat,
    {
        match ty {
            Type::Id(id) => match self.type_def(*id) {
                Some(def) => depth > 0 && self.can_render_def(def, mode, depth - 1),
                None => false,
            },
            _ => true,
        }
    }

    /// Decides whether the definition `def` can be rendered within `depth`
    /// steps.
    pub fn can_render_def(&self, def: &TypeDef, mode: Expansion, depth: usize) -> (b: bool)
        ensures
            b == def_renders(self@.types, def@, mode, depth as nat),
        decreases depth, 1nat,
    {
        match &def.kind {
            TypeDefKind::Option(ty) => self.can_render_type(ty, Expansion::Collapsed, depth),
            TypeDefKind::List(ty) => self.can_render_type(ty, Expansion::Collapsed, depth),
            TypeDefKind::Type(ty) => self.can_render_type(ty, mode, depth),
            TypeDefKind::Result { ok, err } => {
                let ok_renders = match ok {
                    Some(ty) => self.can_render_type(ty, Expansion::Collapsed, depth),
                    None => true,
                };
                let err_renders = match err {
                    Some(ty) => self.can_render_type(ty, Expansion::Collapsed, depth),
                    None => true,
                };
                ok_renders && err_renders
            },
            TypeDefKind::Tuple(tys) => {
                let mut i: usize = 0;
                while i < tys.len()
                    invariant
                        i <= tys.len(),
                        def@.kind == TypeDefKindView::Tuple(tys@),
                        forall|j: int|
                            0 <= j < i ==> type_renders(
                                self@.types,
                                #[trigger] tys@[j],
                                Expansion::Collapsed,
                                depth as nat,
                            ),
                    decreases tys.len() - i,
                {
                    if !self.can_render_type(&tys[i], Expansion::Collapsed, depth) {
                        assert(def@.kind->Tuple_0[i as int] == tys@[i as int]);
                        return false;
                    }
                    i = i + 1;
                }
                true
            },
            TypeDefKind::Enum(_) => match mode {
                Expansion::Expanded(level) => level >= 1,
                Expansion::Collapsed => def.name.is_some(),
            },
            TypeDefKind::Record(fields) => match mode {
                Expansion::Expanded(level) => {
                    if level < 1 {
                        return false;
                    }
                    let ghost field_views = seq_view(fields@);
                    let mut i: usize = 0;
                    while i < fields.len()
                        invariant
                            i <= fields.len(),
                            field_views == seq_view(fields@),
                            def@.kind == TypeDefKindView::Record(field_views),
                            mode == Expansion::Expanded(level),
                            forall|j: int|
                                0 <= j < i ==> type_renders(
                                    self@.types,
                                    (#[trigger] field_views[j]).ty,
                                    Expansion::Collapsed,
                                    depth as nat,
                                ),
                        decreases fields.len() - i,
                    {
                        let field: &Field = &fields[i];
                        assert(field@ == field_views[i as int]);
                        if !self.can_render_type(&field.ty, Expansion::Collapsed, depth) {
                            return false;
                        }
                        i = i + 1;
                    }
                    true
                },
                Expansion::Collapsed => def.name.is_some(),
            },
            _ => false,
        }
    }

    /// Renders the reference `ty`, following at most `depth` references one
    /// inside the other.
    pub fn render_type(&self, ty: &Type, mode: Expansion, depth: usize) -> (s: String)
        requires
            type_renders(self@.types, *ty, mode, depth as nat),
        ensures
            s@ == type_text(self@.types, *ty, mode, depth as nat),
        decreases depth, 0nat,
    {
        let word = match ty {
            Type::Bool => "bool",
            Type::U8 => "u8",
            Type::U16 => "u16",
            Type::U32 => "u32",
            Type::U64 => "u64",
            Type::S8 => "s8",
            Type::S16 => "s16",
            Type::S32 => "s32",
            Type::S64 => "s64",
            Type::Float32 => "float32",
            Type::Float64 => "float64",
            Type::Char => "char",
            Type::String => "string",
            Type::Id(id) => {
                let def = self.type_def(*id).unwrap();
                return self.render_def(def, mode, depth - 1);
            },
        };
        String::from_str(word)
    }

    /// Renders the definition `def`, following at most `depth` references
    /// one inside the other.
    pub fn render_def(&self, def: &TypeDef, mode: Expansion, depth: usize) -> (s: String)
        requires
            def_renders(self@.types, def@, mode, depth as nat),
        ensures
            s@ == def_text(self@.types, def@, mode, depth as nat),
        decreases depth, 2nat,
    {
        match &def.kind {
            TypeDefKind::Option(ty) => {
                let inner = self.render_type(ty, Expansion::Collapsed, depth);
                enclose("option<", inner.as_str(), ">")
            },
            TypeDefKind::Result { ok, err } => match (ok, err) {
                (Some(ok), Some(err)) => {
                    let ok = self.render_type(ok, Expansion::Collapsed, depth);
                    let err = self.render_type(err, Expansion::Collapsed, depth);
                    let mut s = String::from_str("result<");
                    s.append(ok.as_str());
                    s.append(", ");
                    s.append(err.as_str());
                    s.append(">");
                    s
                },
                (Some(ty), None) => {
                    let inner = self.render_type(ty, Expansion::Collapsed, depth);
                    enclose("result<", inner.as_str(), ">")
                },
                (None, Some(ty)) => {
                    let inner = self.render_type(ty, Expansion::Collapsed, depth);
                    enclose("result<", inner.as_str(), ">")
                },
                (None, None) => String::from_str("result"),
            },
            TypeDefKind::Type(ty) => self.render_type(ty, mode, depth),
            TypeDefKind::List(ty) => {
                let inner = self.render_type(ty, Expansion::Collapsed, depth);
                enclose("list<", inner.as_str(), ">")
            },
            TypeDefKind::Tuple(tys) => {
                let ghost parts = tuple_parts(self@.types, tys@, depth as nat);
                assert forall|j: int| 0 <= j < tys@.len() implies type_renders(
                    self@.types,
                    #[trigger] tys@[j],
                    Expansion::Collapsed,
                    depth as nat,
                ) by {
                    assert(def@.kind->Tuple_0[j] == tys@[j]);
                }
                let mut rendered: Vec<String> = Vec::new();
                let mut i: usize = 0;
                while i < tys.len()
                    invariant
                        i <= tys.len(),
                        rendered@.len() == i,
                        parts == tuple_parts(self@.types, tys@, depth as nat),
                        forall|j: int|
                            0 <= j < tys@.len() ==> type_renders(
                                self@.types,
                                #[trigger] tys@[j],
                                Expansion::Collapsed,
                                depth as nat,
                            ),
                        forall|j: int| 0 <= j < i ==> (#[trigger] rendered@[j])@ == parts[j],
                    decreases tys.len() - i,
                {
                    let part = self.render_type(&tys[i], Expansion::Collapsed, depth);
                    rendered.push(part);
                    i = i + 1;
                }
                assert(seq_view(rendered@) =~= parts);
                let inner = join_strings(&rendered, ", ");
                enclose("tuple<", inner.as_str(), ">")
            },
            TypeDefKind::Enum(cases) => match mode {
                Expansion::Expanded(level) => block("enum {\n", cases, level),
                Expansion::Collapsed => def.name.as_ref().unwrap().clone(),
            },
            TypeDefKind::Record(fields) => match mode {
                Expansion::Expanded(level) => {
                    let ghost field_views = seq_view(fields@);
                    let ghost lines = record_lines(self@.types, field_views, depth as nat);
                    let mut rendered: Vec<String> = Vec::new();
                    let mut i: usize = 0;
                    while i < fields.len()
                        invariant
                            i <= fields.len(),
                            rendered@.len() == i,
                            field_views == seq_view(fields@),
                            lines == record_lines(self@.types, field_views, depth as nat),
                            forall|j: int|
                                0 <= j < field_views.len() ==> type_renders(
                                    self@.types,
                                    (#[trigger] field_views[j]).ty,
                                    Expansion::Collapsed,
                                    depth as nat,
                                ),
                            forall|j: int| 0 <= j < i ==> (#[trigger] rendered@[j])@ == lines[j],
                        decreases fields.len() - i,
                    {
                        let field: &Field = &fields[i];
                        assert(field@ == field_views[i as int]);
                        let ty = self.render_type(&field.ty, Expansion::Collapsed, depth);
                        let mut line = field.name.clone();
                        line.append(": ");
                        line.append(ty.as_str());
                        rendered.push(line);
                        i = i + 1;
                    }
                    assert(seq_view(rendered@) =~= lines);
                    block("record {\n", &rendered, level)
                },
                Expansion::Collapsed => def.name.as_ref().unwrap().clone(),
            },
            _ => String::new(),
        }
    }
}

impl Querier {
    /// Decides whether `display_wit_type` can be asked for `param_type`.
    pub fn can_display_wit_type(&self, param_type: &Type, expansion: Expansion) -> (b: bool)
        ensures
            b == self@.graph.renders_type(*param_type, expansion),
    {
        let graph = self.graph();
        graph.can_render_type(param_type, expansion, graph.types.items.len())
    }

    /// Decides whether `display_wit_type_def` can be asked for `typ`.
    pub fn can_display_wit_type_def(&self, typ: &TypeDef, expansion: Expansion) -> (b: bool)
        ensures
            b == self@.graph.renders_def(typ@, expansion),
    {
        let graph = self.graph();
        graph.can_render_def(typ, expansion, graph.types.items.len())
    }

    /// The WIT text of a type reference.
    pub fn display_wit_type(&self, param_type: &Type, expansion: Expansion) -> (text: String)
        requires
            self@.graph.renders_type(*param_type, expansion),
        ensures
            text@ == self@.graph.wit_type(*param_type, expansion),
    {
        let graph = self.graph();
        graph.render_type(param_type, expansion, graph.types.items.len())
    }

    /// The WIT text of a type definition.
    pub fn display_wit_type_def(&self, typ: &TypeDef, expansion: Expansion) -> (text: String)
        requires
            self@.graph.renders_def(typ@, expansion),
        ensures
            text@ == self@.graph.wit_type_def(typ@, expansion),
    {
        let graph = self.graph();
        graph.render_def(typ, expansion, graph.types.items.len())
    }
}

} // verus!
