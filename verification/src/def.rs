//! The schema data model: types, fields and struct definitions.

use vstd::prelude::*;

verus! {

/// Mathematical value of a [`Type`].
pub enum TypeView {
    /// A container of the inner type.
    Vec(Box<TypeView>),
    /// A named scalar or opaque type.
    Atom(Seq<char>),
}

/// Mathematical value of a [`StructField`].
pub struct StructFieldView {
    pub name: Seq<char>,
    pub ty: TypeView,
}

/// Mathematical value of a [`StructDef`].
pub struct StructDefView {
    pub name: Seq<char>,
    pub fields: Seq<StructFieldView>,
}

/// The type of a field: a name, or a container of another type.
#[derive(Debug, PartialEq, Eq)]
pub enum Type {
    Vec(Box<Type>),
    Atom(String),
}

/// A named, typed field of a struct.
#[derive(Debug, PartialEq, Eq)]
pub struct StructField {
    pub name: String,
    pub ty: Type,
}

/// A struct with its fields in declaration order.
#[derive(Debug, PartialEq, Eq)]
pub struct StructDef {
    pub name: String,
    pub fields: Vec<StructField>,
}

impl TypeView {
    /// Every atom in the type carries a non-empty name.
    pub open spec fn well_formed(self) -> bool
        decreases self,
    {
        match self {
            TypeView::Vec(inner) => inner.well_formed(),
            TypeView::Atom(name) => name.len() > 0,
        }
    }

    /// Number of container layers around the atom.
    pub open spec fn depth(self) -> nat
        decreases self,
    {
        match self {
            TypeView::Vec(inner) => inner.depth() + 1,
            TypeView::Atom(_) => 0,
        }
    }

    /// Name of the atom at the core of the type.
    pub open spec fn leaf(self) -> Seq<char>
        decreases self,
    {
        match self {
            TypeView::Vec(inner) => inner.leaf(),
            TypeView::Atom(name) => name,
        }
    }

    /// The atom `leaf` inside `depth` container layers.
    pub open spec fn nested(leaf: Seq<char>, depth: nat) -> TypeView
        decreases depth,
    {
        if depth == 0 {
            TypeView::Atom(leaf)
        } else {
            TypeView::Vec(Box::new(TypeView::nested(leaf, (depth - 1) as nat)))
        }
    }
}

/// The value of a type: the same shape, with each name as a sequence of
/// characters.
pub open spec fn type_view(t: Type) -> TypeView
    decreases t,
{
    match t {
        Type::Vec(inner) => TypeView::Vec(Box::new(type_view(*inner))),
        Type::Atom(name) => TypeView::Atom(name@),
    }
}

impl StructDefView {
    /// The type of every field is well formed.
    pub open spec fn well_formed(self) -> bool {
        forall|i: int| 0 <= i < self.fields.len() ==> (#[trigger] self.fields[i]).ty.well_formed()
    }
}

impl View for Type {
    type V = TypeView;

    open spec fn view(&self) -> TypeView {
        type_view(*self)
    }
}

impl View for StructField {
    type V = StructFieldView;

    open spec fn view(&self) -> StructFieldView {
        StructFieldView { name: self.name@, ty: self.ty@ }
    }
}

impl View for StructDef {
    type V = StructDefView;

    open spec fn view(&self) -> StructDefView {
        StructDefView { name: self.name@, fields: fields_view(self.fields@) }
    }
}

/// The values of a sequence of fields, in the same order.
pub open spec fn fields_view(fields: Seq<StructField>) -> Seq<StructFieldView> {
    fields.map_values(|f: StructField| f@)
}

/// The values of a sequence of struct definitions, in the same order.
pub open spec fn defs_view(defs: Seq<StructDef>) -> Seq<StructDefView> {
    defs.map_values(|d: StructDef| d@)
}

/// Nesting an atom `depth` times gives a type of that depth around that atom.
pub proof fn nested_depth_and_leaf(leaf: Seq<char>, depth: nat)
    ensures
        TypeView::nested(leaf, depth).depth() == depth,
        TypeView::nested(leaf, depth).leaf() == leaf,
        TypeView::nested(leaf, depth).well_formed() <==> leaf.len() > 0,
    decreases depth,
{
    if depth > 0 {
        nested_depth_and_leaf(leaf, (depth - 1) as nat);
    }
}

} // verus!
