//! A plain model of what schema extraction reads from a parsed compilation
//! unit: its top-level items, the members of each struct, and the shape of each
//! field's type expression.

use vstd::prelude::*;

verus! {

/// Mathematical value of a [`TypeExpr`].
pub enum TypeExprView {
    Path(PathExprView),
    Other,
}

/// Mathematical value of a [`PathExpr`].
pub struct PathExprView {
    pub qualified: bool,
    pub global: bool,
    pub segments: Seq<SegmentView>,
}

/// Mathematical value of a [`Segment`].
pub struct SegmentView {
    pub ident: Seq<char>,
    pub arguments: SegmentArgsView,
}

/// Mathematical value of a [`SegmentArgs`].
pub enum SegmentArgsView {
    Absent,
    Angle(Seq<GenericArgView>),
    Parenthesized,
}

/// Mathematical value of a [`GenericArg`].
pub enum GenericArgView {
    Type(TypeExprView),
    Other,
}

/// Mathematical value of a [`FieldDecl`].
pub struct FieldDeclView {
    pub name: Seq<char>,
    pub ty: TypeExprView,
}

/// Mathematical value of a [`Members`].
pub enum MembersView {
    Named(Seq<FieldDeclView>),
    Unnamed,
    Unit,
}

/// Mathematical value of a [`StructDecl`].
pub struct StructDeclView {
    pub name: Seq<char>,
    pub members: MembersView,
}

/// Mathematical value of an [`ItemDecl`].
pub enum ItemDeclView {
    Struct(StructDeclView),
    Other,
}

/// A type expression as written in a field declaration.
#[derive(Debug, PartialEq, Eq)]
pub enum TypeExpr {
    /// A path such as `u8`, `Vec<u8>` or `std::string::String`.
    Path(PathExpr),
    /// Any other syntax: a reference, a pointer, a tuple, an array, ...
    Other,
}

/// A path in type position.
#[derive(Debug, PartialEq, Eq)]
pub struct PathExpr {
    /// The path is qualified with a self type, as in `<T as Trait>::Item`.
    pub qualified: bool,
    /// The path starts with `::`.
    pub global: bool,
    /// The segments between the `::` separators, in order.
    pub segments: Vec<Segment>,
}

/// One segment of a path, with the arguments written after its name.
#[derive(Debug, PartialEq, Eq)]
pub struct Segment {
    pub ident: String,
    pub arguments: SegmentArgs,
}

/// The arguments of a path segment.
#[derive(Debug, PartialEq, Eq)]
pub enum SegmentArgs {
    /// No arguments: `u8`.
    Absent,
    /// Arguments in angle brackets: the `<u8>` of `Vec<u8>`.
    Angle(Vec<GenericArg>),
    /// Arguments in round brackets: the `(u8) -> u8` of `Fn(u8) -> u8`.
    Parenthesized,
}

/// One argument in angle brackets.
#[derive(Debug, PartialEq, Eq)]
pub enum GenericArg {
    /// A type.
    Type(TypeExpr),
    /// A lifetime, a constant, a binding or a constraint.
    Other,
}

/// A field of a struct with named fields.
#[derive(Debug, PartialEq, Eq)]
pub struct FieldDecl {
    pub name: String,
    pub ty: TypeExpr,
}

/// The member list of a struct.
#[derive(Debug, PartialEq, Eq)]
pub enum Members {
    /// `struct S { a: A, b: B }`
    Named(Vec<FieldDecl>),
    /// `struct S(A, B);`
    Unnamed,
    /// `struct S;`
    Unit,
}

/// A struct declaration.
#[derive(Debug, PartialEq, Eq)]
pub struct StructDecl {
    pub name: String,
    pub members: Members,
}

/// A top-level item of a compilation unit.
#[derive(Debug, PartialEq, Eq)]
pub enum ItemDecl {
    Struct(StructDecl),
    /// A function, an enum, an impl block, or any other item.
    Other,
}

/// A compilation unit: its top-level items in document order.
#[derive(Debug, PartialEq, Eq)]
pub struct SourceFile {
    pub items: Vec<ItemDecl>,
}

/// The value of a type expression.
pub open spec fn type_expr_view(e: TypeExpr) -> TypeExprView
    decreases e,
{
    match e {
        TypeExpr::Path(p) => TypeExprView::Path(
            PathExprView {
                qualified: p.qualified,
                global: p.global,
                segments: Seq::new(
                    p.segments@.len(),
                    |i: int|
                        if 0 <= i < p.segments@.len() {
                            segment_view(p.segments@[i])
                        } else {
                            arbitrary()
                        },
                ),
            },
        ),
        TypeExpr::Other => TypeExprView::Other,
    }
}

/// The value of a path segment.
pub open spec fn segment_view(s: Segment) -> SegmentView
    decreases s,
{
    SegmentView {
        ident: s.ident@,
        arguments: match s.arguments {
            SegmentArgs::Absent => SegmentArgsView::Absent,
            SegmentArgs::Angle(args) => SegmentArgsView::Angle(
                Seq::new(
                    args@.len(),
                    |i: int|
                        if 0 <= i < args@.len() {
                            generic_arg_view(args@[i])
                        } else {
                            arbitrary()
                        },
                ),
            ),
            SegmentArgs::Parenthesized => SegmentArgsView::Parenthesized,
        },
    }
}

/// The value of a generic argument.
pub open spec fn generic_arg_view(a: GenericArg) -> GenericArgView
    decreases a,
{
    match a {
        GenericArg::Type(e) => GenericArgView::Type(type_expr_view(e)),
        GenericArg::Other => GenericArgView::Other,
    }
}

impl View for TypeExpr {
    type V = TypeExprView;

    open spec fn view(&self) -> TypeExprView {
        type_expr_view(*self)
    }
}

impl View for Segment {
    type V = SegmentView;

    open spec fn view(&self) -> SegmentView {
        segment_view(*self)
    }
}

impl View for GenericArg {
    type V = GenericArgView;

    open spec fn view(&self) -> GenericArgView {
        generic_arg_view(*self)
    }
}

impl View for FieldDecl {
    type V = FieldDeclView;

    open spec fn view(&self) -> FieldDeclView {
        FieldDeclView { name: self.name@, ty: self.ty@ }
    }
}

impl View for Members {
    type V = MembersView;

    open spec fn view(&self) -> MembersView {
        match self {
            Members::Named(fields) => MembersView::Named(fields@.map_values(|f: FieldDecl| f@)),
            Members::Unnamed => MembersView::Unnamed,
            Members::Unit => MembersView::Unit,
        }
    }
}

impl View for StructDecl {
    type V = StructDeclView;

    open spec fn view(&self) -> StructDeclView {
        StructDeclView { name: self.name@, members: self.members@ }
    }
}

impl View for ItemDecl {
    type V = ItemDeclView;

    open spec fn view(&self) -> ItemDeclView {
        match self {
            ItemDecl::Struct(s) => ItemDeclView::Struct(s@),
            ItemDecl::Other => ItemDeclView::Other,
        }
    }
}

impl View for SourceFile {
    type V = Seq<ItemDeclView>;

    open spec fn view(&self) -> Seq<ItemDeclView> {
        self.items@.map_values(|item: ItemDecl| item@)
    }
}

} // verus!
