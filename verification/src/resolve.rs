//! The type resolver: from a type expression to a schema type.

use crate::def::{Type, TypeView};
use crate::error::ShapeError;
use crate::syntax::{
    GenericArg, GenericArgView, PathExprView, SegmentArgs, SegmentArgsView, SegmentView, TypeExpr,
    TypeExprView,
};
use vstd::prelude::*;

verus! {

/// The reserved name of the container type.
pub open spec fn container_name() -> Seq<char> {
    "Vec"@
}

/// The schema type that a type expression denotes, or why it denotes none.
///
/// Only an unqualified path of one segment denotes a type. Where that segment
/// is the container name, it must carry exactly one argument in angle brackets,
/// a type, and denotes the container of what the argument denotes. Any other
/// non-empty name denotes an atom, and must carry no arguments.
pub open spec fn resolve_type(e: TypeExprView) -> Result<TypeView, ShapeError>
    decreases e,
{
    match e {
        TypeExprView::Other => Err(ShapeError::Unsupported),
        TypeExprView::Path(p) => {
            if p.qualified || p.global || p.segments.len() != 1 {
                Err(ShapeError::Unsupported)
            } else if p.segments[0].ident == container_name() {
                match p.segments[0].arguments {
                    SegmentArgsView::Absent => Err(ShapeError::MissingArgument),
                    SegmentArgsView::Parenthesized => Err(ShapeError::Unsupported),
                    SegmentArgsView::Angle(args) => {
                        if args.len() == 0 {
                            Err(ShapeError::MissingArgument)
                        } else if args.len() != 1 {
                            Err(ShapeError::Unsupported)
                        } else {
                            match args[0] {
                                GenericArgView::Other => Err(ShapeError::Unsupported),
                                GenericArgView::Type(inner) => match resolve_type(inner) {
                                    Ok(t) => Ok(TypeView::Vec(Box::new(t))),
                                    Err(err) => Err(err),
                                },
                            }
                        }
                    },
                }
            } else if p.segments[0].ident.len() == 0 {
                Err(ShapeError::Unsupported)
            } else {
                match p.segments[0].arguments {
                    SegmentArgsView::Absent => Ok(TypeView::Atom(p.segments[0].ident)),
                    _ => Err(ShapeError::Unsupported),
                }
            }
        },
    }
}

/// Resolves a type expression to the schema type it denotes. The type is well
/// formed: each of its atoms has a name.
pub fn resolve(e: &TypeExpr) -> (r: Result<Type, ShapeError>)
    ensures
        match r {
            Ok(t) => resolve_type(e@) == Ok::<TypeView, ShapeError>(t@) && t@.well_formed(),
            Err(err) => resolve_type(e@) == Err::<TypeView, ShapeError>(err),
        },
    decreases e,
{
    proof {
        resolved_type_is_well_formed(e@);
    }
    match e {
        TypeExpr::Other => Err(ShapeError::Unsupported),
        TypeExpr::Path(p) => {
            if p.qualified || p.global || p.segments.len() != 1 {
                return Err(ShapeError::Unsupported);
            }
            let segment = &p.segments[0];
            let container = String::from_str("Vec");
            if segment.ident == container {
                match &segment.arguments {
                    SegmentArgs::Absent => Err(ShapeError::MissingArgument),
                    SegmentArgs::Parenthesized => Err(ShapeError::Unsupported),
                    SegmentArgs::Angle(args) => {
                        if args.len() == 0 {
                            Err(ShapeError::MissingArgument)
                        } else if args.len() != 1 {
                            Err(ShapeError::Unsupported)
                        } else {
                            match &args[0] {
                                GenericArg::Other => Err(ShapeError::Unsupported),
                                GenericArg::Type(inner) => match resolve(inner) {
                                    Ok(t) => Ok(Type::Vec(Box::new(t))),
                                    Err(err) => Err(err),
                                },
                            }
                        }
                    },
                }
            } else if segment.ident.as_str().is_empty() {
                Err(ShapeError::Unsupported)
            } else {
                match &segment.arguments {
                    SegmentArgs::Absent => Ok(Type::Atom(segment.ident.clone())),
                    _ => Err(ShapeError::Unsupported),
                }
            }
        },
    }
}

/// The expression of a plain name.
pub open spec fn name_expr(name: Seq<char>) -> TypeExprView {
    TypeExprView::Path(
        PathExprView {
            qualified: false,
            global: false,
            segments: seq![SegmentView { ident: name, arguments: SegmentArgsView::Absent }],
        },
    )
}

/// The expression of the container applied to one type expression.
pub open spec fn container_expr(inner: TypeExprView) -> TypeExprView {
    TypeExprView::Path(
        PathExprView {
            qualified: false,
            global: false,
            segments: seq![
                SegmentView {
                    ident: container_name(),
                    arguments: SegmentArgsView::Angle(seq![GenericArgView::Type(inner)]),
                },
            ],
        },
    )
}

/// The expression of the name `leaf` inside `depth` applications of the
/// container.
pub open spec fn nested_expr(leaf: Seq<char>, depth: nat) -> TypeExprView
    decreases depth,
{
    if depth == 0 {
        name_expr(leaf)
    } else {
        container_expr(nested_expr(leaf, (depth - 1) as nat))
    }
}

/// The expression is a path that is qualified with a self type, starts with
/// `::`, or has more than one segment.
pub open spec fn is_qualified_path(e: TypeExprView) -> bool {
    e matches TypeExprView::Path(p) && (p.qualified || p.global || p.segments.len() > 1)
}

/// The expression is a single name with two or more arguments in angle
/// brackets.
pub open spec fn is_multi_argument_generic(e: TypeExprView) -> bool {
    e matches TypeExprView::Path(p) && p.segments.len() == 1 && (
    p.segments[0].arguments matches SegmentArgsView::Angle(args) && args.len() >= 2)
}

/// A name other than the container name, and not empty, denotes the atom of
/// that name.
pub proof fn name_resolves_to_atom(name: Seq<char>)
    requires
        name.len() > 0,
        name != container_name(),
    ensures
        resolve_type(name_expr(name)) == Ok::<TypeView, ShapeError>(TypeView::Atom(name)),
{
}

/// The container applied to an expression denotes the container of what the
/// expression denotes, and fails as the expression fails.
pub proof fn container_resolves_as_inner(inner: TypeExprView)
    ensures
        resolve_type(container_expr(inner)) == match resolve_type(inner) {
            Ok(t) => Ok::<TypeView, ShapeError>(TypeView::Vec(Box::new(t))),
            Err(err) => Err(err),
        },
{
}

/// A name inside `depth` applications of the container denotes the atom of
/// that name inside `depth` container layers, for every depth.
pub proof fn nested_container_resolves(leaf: Seq<char>, depth: nat)
    requires
        leaf.len() > 0,
        leaf != container_name(),
    ensures
        resolve_type(nested_expr(leaf, depth)) == Ok::<TypeView, ShapeError>(
            TypeView::nested(leaf, depth),
        ),
    decreases depth,
{
    if depth == 0 {
        name_resolves_to_atom(leaf);
    } else {
        nested_container_resolves(leaf, (depth - 1) as nat);
        container_resolves_as_inner(nested_expr(leaf, (depth - 1) as nat));
    }
}

/// An expression that is no path, a qualified path, and a name with two or
/// more arguments are all unsupported.
pub proof fn unsupported_shapes(e: TypeExprView)
    requires
        e is Other || is_qualified_path(e) || is_multi_argument_generic(e),
    ensures
        resolve_type(e) == Err::<TypeView, ShapeError>(ShapeError::Unsupported),
{
}

/// Whatever an expression denotes is well formed: every atom has a name.
pub proof fn resolved_type_is_well_formed(e: TypeExprView)
    ensures
        resolve_type(e) matches Ok(t) ==> t.well_formed(),
    decreases e,
{
    if let TypeExprView::Path(p) = e {
        if !p.qualified && !p.global && p.segments.len() == 1 && p.segments[0].ident
            == container_name() {
            if let SegmentArgsView::Angle(args) = p.segments[0].arguments {
                if args.len() == 1 {
                    if let GenericArgView::Type(inner) = args[0] {
                        resolved_type_is_well_formed(inner);
                    }
                }
            }
        }
    }
}

} // verus!
