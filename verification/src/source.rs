//! The bridge to the parser: a syntax tree of `syn` is read into the plain
//! model of [`crate::syntax`], and schemas are extracted from token streams and
//! parsed files.
//!
//! Nothing is proved of the parser. The functions marked `external_body` below
//! state what a node of its tree holds, each in one step; everything around
//! them is verified against those statements.

use crate::def::StructDef;
use crate::error::{SchemaError, SchemaErrorView};
use crate::extract::{
    extract, extract_struct, file_outcome, outcome_view, struct_outcome, struct_outcome_view,
};
use crate::syntax::{
    FieldDecl, FieldDeclView, GenericArg, GenericArgView, ItemDecl, ItemDeclView, Members,
    MembersView, PathExpr, PathExprView, Segment, SegmentArgs, SegmentArgsView, SegmentView,
    SourceFile, StructDecl, StructDeclView, TypeExpr, TypeExprView,
};
use vstd::prelude::*;

verus! {

/// `proc_macro2::TokenStream`: a sequence of tokens, carried through unread.
#[verifier::external_type_specification]
#[verifier::external_body]
pub struct ExTokenStream(proc_macro2::TokenStream);

/// `syn::Error`: the failure of a parse, carried through unread.
#[verifier::external_type_specification]
#[verifier::external_body]
pub struct ExParseError(syn::Error);

/// `syn::File`: a parsed file, read only through the functions below.
#[verifier::external_type_specification]
#[verifier::external_body]
pub struct ExFile(syn::File);

/// `syn::ItemStruct`: a parsed struct item, read only through the functions
/// below.
#[verifier::external_type_specification]
#[verifier::external_body]
pub struct ExItemStruct(syn::ItemStruct);

/// `syn::Field`: a parsed field, read only through the functions below.
#[verifier::external_type_specification]
#[verifier::external_body]
pub struct ExField(syn::Field);

/// `syn::TypePath`: a parsed path in type position, read only through the
/// functions below.
#[verifier::external_type_specification]
#[verifier::external_body]
pub struct ExTypePath(syn::TypePath);

/// `syn::PathSegment`: a parsed path segment, read only through the functions
/// below.
#[verifier::external_type_specification]
#[verifier::external_body]
pub struct ExPathSegment(syn::PathSegment);

/// `syn::GenericArgument`: a parsed generic argument, read only through the
/// functions below.
#[verifier::external_type_specification]
#[verifier::external_body]
pub struct ExGenericArgument(syn::GenericArgument);

/// What parsing a token stream as a file gives: the top-level items of the
/// file, or the parser's account of the failure.
pub uninterp spec fn parsed_items(tokens: proc_macro2::TokenStream) -> Result<
    Seq<ItemDeclView>,
    Seq<char>,
>;

/// The message of a parse error.
pub uninterp spec fn error_text(error: syn::Error) -> Seq<char>;

/// The top-level items that a parsed file holds, in document order.
pub uninterp spec fn file_syntax(file: syn::File) -> Seq<ItemDeclView>;

/// What a parsed struct item holds: its name and its member list.
pub uninterp spec fn struct_syntax(item: syn::ItemStruct) -> StructDeclView;

/// What a parsed field holds: its name, empty where it has none, and its type
/// expression.
pub uninterp spec fn field_syntax(field: syn::Field) -> FieldDeclView;

/// What a parsed path in type position holds.
pub uninterp spec fn path_syntax(path: syn::TypePath) -> PathExprView;

/// What a parsed path segment holds: its name and its arguments.
pub uninterp spec fn segment_syntax(segment: syn::PathSegment) -> SegmentView;

/// What a parsed generic argument holds.
pub uninterp spec fn argument_syntax(argument: syn::GenericArgument) -> GenericArgView;

/// The member list of a parsed struct, with its fields still unread.
enum MemberList<'a> {
    Named(Vec<&'a syn::Field>),
    Unnamed,
    Unit,
}

/// The parts of a parsed path, with its segments still unread.
struct PathParts<'a> {
    qualified: bool,
    global: bool,
    segments: Vec<&'a syn::PathSegment>,
}

/// The arguments of a parsed path segment, still unread.
enum ArgumentList<'a> {
    Absent,
    Angle(Vec<&'a syn::GenericArgument>),
    Parenthesized,
}

/// A parsed generic argument, told apart by what it is.
enum ArgumentKind<'a> {
    /// A type that is a path.
    Path(&'a syn::TypePath),
    /// A type of any other syntax.
    OtherType,
    /// No type.
    NotType,
}

/// `syn::parse2::<syn::File>`: parses the tokens as one file. The outcome is
/// a function of the tokens; the contract only gives it its name.
#[verifier::external_body]
fn parse_tokens(tokens: proc_macro2::TokenStream) -> (r: Result<syn::File, syn::Error>)
    ensures
        parsed_items(tokens) == match r {
            Ok(file) => Ok::<Seq<ItemDeclView>, Seq<char>>(file_syntax(file)),
            Err(error) => Err(error_text(error)),
        },
{
    syn::parse2::<syn::File>(tokens)
}

/// `Display` of `syn::Error`: the message of the error as text.
#[verifier::external_body]
fn error_reason(error: &syn::Error) -> (r: String)
    ensures
        r@ == error_text(*error),
{
    error.to_string()
}

/// The field `items` of `syn::File`: the number of top-level items.
#[verifier::external_body]
fn file_len(file: &syn::File) -> (n: usize)
    ensures
        n == file_syntax(*file).len(),
{
    file.items.len()
}

/// The field `items` of `syn::File`: the top-level item at `index`, as the
/// struct item where it is `syn::Item::Struct`.
#[verifier::external_body]
fn file_struct_at<'a>(file: &'a syn::File, index: usize) -> (r: Option<&'a syn::ItemStruct>)
    requires
        index < file_syntax(*file).len(),
    ensures
        file_syntax(*file)[index as int] == match r {
            Some(item) => ItemDeclView::Struct(struct_syntax(*item)),
            None => ItemDeclView::Other,
        },
{
    match &file.items[index] {
        syn::Item::Struct(item) => Some(item),
        _ => None,
    }
}

/// The field `ident` of `syn::ItemStruct`, as text.
#[verifier::external_body]
fn struct_name(item: &syn::ItemStruct) -> (r: String)
    ensures
        r@ == struct_syntax(*item).name,
{
    item.ident.to_string()
}

/// The field `fields` of `syn::ItemStruct`: which of the three variants of
/// `syn::Fields` it is, and for named fields the fields in order.
#[verifier::external_body]
fn struct_members<'a>(item: &'a syn::ItemStruct) -> (r: MemberList<'a>)
    ensures
        struct_syntax(*item).members == match r {
            MemberList::Named(fields) => MembersView::Named(
                fields@.map_values(|field: &syn::Field| field_syntax(*field)),
            ),
            MemberList::Unnamed => MembersView::Unnamed,
            MemberList::Unit => MembersView::Unit,
        },
{
    match &item.fields {
        syn::Fields::Named(named) => MemberList::Named(named.named.iter().collect()),
        syn::Fields::Unnamed(_) => MemberList::Unnamed,
        syn::Fields::Unit => MemberList::Unit,
    }
}

/// The field `ident` of `syn::Field`, as text where the field has a name.
#[verifier::external_body]
fn field_name(field: &syn::Field) -> (r: Option<String>)
    ensures
        field_syntax(*field).name == match r {
            Some(name) => name@,
            None => Seq::<char>::empty(),
        },
{
    match &field.ident {
        Some(ident) => Some(ident.to_string()),
        None => None,
    }
}

/// The field `ty` of `syn::Field`: the path where it is `syn::Type::Path`.
#[verifier::external_body]
fn field_type<'a>(field: &'a syn::Field) -> (r: Option<&'a syn::TypePath>)
    ensures
        field_syntax(*field).ty == match r {
            Some(path) => TypeExprView::Path(path_syntax(*path)),
            None => TypeExprView::Other,
        },
{
    match &field.ty {
        syn::Type::Path(path) => Some(path),
        _ => None,
    }
}

/// The fields of `syn::TypePath` and of its `syn::Path`: whether `qself` is
/// there, whether `leading_colon` is there, and the segments in order.
#[verifier::external_body]
fn path_parts<'a>(path: &'a syn::TypePath) -> (r: PathParts<'a>)
    ensures
        path_syntax(*path) == (PathExprView {
            qualified: r.qualified,
            global: r.global,
            segments: r.segments@.map_values(|segment: &syn::PathSegment| segment_syntax(*segment)),
        }),
{
    PathParts {
        qualified: path.qself.is_some(),
        global: path.path.leading_colon.is_some(),
        segments: path.path.segments.iter().collect(),
    }
}

/// The field `ident` of `syn::PathSegment`, as text.
#[verifier::external_body]
fn segment_name(segment: &syn::PathSegment) -> (r: String)
    ensures
        r@ == segment_syntax(*segment).ident,
{
    segment.ident.to_string()
}

/// The field `arguments` of `syn::PathSegment`: which of the three variants
/// of `syn::PathArguments` it is, and for angle brackets the arguments in
/// order.
#[verifier::external_body]
fn segment_arguments<'a>(segment: &'a syn::PathSegment) -> (r: ArgumentList<'a>)
    ensures
        segment_syntax(*segment).arguments == match r {
            ArgumentList::Absent => SegmentArgsView::Absent,
            ArgumentList::Angle(arguments) => SegmentArgsView::Angle(
                arguments@.map_values(|argument: &syn::GenericArgument| argument_syntax(*argument)),
            ),
            ArgumentList::Parenthesized => SegmentArgsView::Parenthesized,
        },
{
    match &segment.arguments {
        syn::PathArguments::None => ArgumentList::Absent,
        syn::PathArguments::AngleBracketed(list) => ArgumentList::Angle(list.args.iter().collect()),
        syn::PathArguments::Parenthesized(_) => ArgumentList::Parenthesized,
    }
}

/// The variants of `syn::GenericArgument`: a type that is a path, a type that
/// is none, or no type.
#[verifier::external_body]
fn argument_kind<'a>(argument: &'a syn::GenericArgument) -> (r: ArgumentKind<'a>)
    ensures
        argument_syntax(*argument) == match r {
            ArgumentKind::Path(path) => GenericArgView::Type(TypeExprView::Path(path_syntax(*path))),
            ArgumentKind::OtherType => GenericArgView::Type(TypeExprView::Other),
            ArgumentKind::NotType => GenericArgView::Other,
        },
{
    match argument {
        syn::GenericArgument::Type(syn::Type::Path(path)) => ArgumentKind::Path(path),
        syn::GenericArgument::Type(_) => ArgumentKind::OtherType,
        _ => ArgumentKind::NotType,
    }
}

/// Reads a parsed path into the model.
#[verifier::loop_isolation(false)]
fn read_path(path: &syn::TypePath) -> (r: PathExpr)
    ensures
        TypeExpr::Path(r)@ == TypeExprView::Path(path_syntax(*path)),
    decreases path_syntax(*path),
{
    let parts = path_parts(path);
    let mut segments: Vec<Segment> = Vec::new();
    let mut i: usize = 0;
    while i < parts.segments.len()
        invariant
            i <= parts.segments.len(),
            segments@.len() == i,
            forall|j: int| 0 <= j < i ==> segments@[j]@ == path_syntax(*path).segments[j],
        decreases parts.segments.len() - i,
    {
        proof {
            assert(path_syntax(*path).segments[i as int] == segment_syntax(*parts.segments@[i as int]));
        }
        let segment = read_segment(parts.segments[i]);
        segments.push(segment);
        i += 1;
    }
    let r = PathExpr { qualified: parts.qualified, global: parts.global, segments };
    proof {
        assert(TypeExpr::Path(r)@->Path_0.segments =~= path_syntax(*path).segments);
    }
    r
}

/// Reads a parsed path segment into the model.
#[verifier::loop_isolation(false)]
fn read_segment(segment: &syn::PathSegment) -> (r: Segment)
    ensures
        r@ == segment_syntax(*segment),
    decreases segment_syntax(*segment),
{
    let ident = segment_name(segment);
    let arguments = match segment_arguments(segment) {
        ArgumentList::Absent => SegmentArgs::Absent,
        ArgumentList::Parenthesized => SegmentArgs::Parenthesized,
        ArgumentList::Angle(written) => {
            let mut arguments: Vec<GenericArg> = Vec::new();
            let mut i: usize = 0;
            while i < written.len()
                invariant
                    i <= written.len(),
                    arguments@.len() == i,
                    forall|j: int|
                        0 <= j < i ==> arguments@[j]@ == segment_syntax(
                            *segment,
                        ).arguments->Angle_0[j],
                decreases written.len() - i,
            {
                proof {
                    assert(segment_syntax(*segment).arguments->Angle_0[i as int]
                        == argument_syntax(*written@[i as int]));
                }
                let argument = read_argument(written[i]);
                arguments.push(argument);
                i += 1;
            }
            SegmentArgs::Angle(arguments)
        },
    };
    let r = Segment { ident, arguments };
    proof {
        if r@.arguments is Angle {
            assert(r@.arguments->Angle_0 =~= segment_syntax(*segment).arguments->Angle_0);
        }
    }
    r
}

/// Reads a parsed generic argument into the model.
fn read_argument(argument: &syn::GenericArgument) -> (r: GenericArg)
    ensures
        r@ == argument_syntax(*argument),
    decreases argument_syntax(*argument),
{
    match argument_kind(argument) {
        ArgumentKind::Path(path) => {
            proof {
                let written = argument_syntax(*argument);
                assert(decreases_to!(written => written->Type_0));
                assert(decreases_to!(written->Type_0 => written->Type_0->Path_0));
            }
            GenericArg::Type(TypeExpr::Path(read_path(path)))
        },
        ArgumentKind::OtherType => GenericArg::Type(TypeExpr::Other),
        ArgumentKind::NotType => GenericArg::Other,
    }
}

/// Reads a parsed field into the model. A field without a name gets the empty
/// name.
fn read_field(field: &syn::Field) -> (r: FieldDecl)
    ensures
        r@ == field_syntax(*field),
{
    let name = match field_name(field) {
        Some(name) => name,
        None => String::new(),
    };
    let ty = match field_type(field) {
        Some(path) => TypeExpr::Path(read_path(path)),
        None => TypeExpr::Other,
    };
    FieldDecl { name, ty }
}

/// Reads a parsed struct item into the model: its name and, for a list of
/// named fields, each field with its name and the shape of its type
/// expression.
#[verifier::loop_isolation(false)]
pub fn read_struct(item: &syn::ItemStruct) -> (r: StructDecl)
    ensures
        r@ == struct_syntax(*item),
{
    let name = struct_name(item);
    let members = match struct_members(item) {
        MemberList::Unnamed => Members::Unnamed,
        MemberList::Unit => Members::Unit,
        MemberList::Named(declared) => {
            let mut fields: Vec<FieldDecl> = Vec::new();
            let mut i: usize = 0;
            while i < declared.len()
                invariant
                    i <= declared.len(),
                    fields@.len() == i,
                    forall|j: int|
                        0 <= j < i ==> fields@[j]@ == struct_syntax(*item).members->Named_0[j],
                decreases declared.len() - i,
            {
                let field = read_field(declared[i]);
                fields.push(field);
                i += 1;
            }
            Members::Named(fields)
        },
    };
    let r = StructDecl { name, members };
    proof {
        if r@.members is Named {
            assert(r@.members->Named_0 =~= struct_syntax(*item).members->Named_0);
        }
    }
    r
}

/// Reads the top-level items of a parsed file into the model, in document
/// order: each struct item with its name and members, any other item as
/// [`ItemDecl::Other`].
#[verifier::loop_isolation(false)]
pub fn read_file(file: &syn::File) -> (r: SourceFile)
    ensures
        r@ == file_syntax(*file),
{
    let count = file_len(file);
    let mut items: Vec<ItemDecl> = Vec::new();
    let mut i: usize = 0;
    while i < count
        invariant
            i <= count,
            items@.len() == i,
            forall|j: int| 0 <= j < i ==> items@[j]@ == file_syntax(*file)[j],
        decreases count - i,
    {
        match file_struct_at(file, i) {
            Some(item) => {
                let decl = read_struct(item);
                items.push(ItemDecl::Struct(decl));
            },
            None => {
                items.push(ItemDecl::Other);
            },
        }
        i += 1;
    }
    let r = SourceFile { items };
    proof {
        assert(r@ =~= file_syntax(*file));
    }
    r
}

/// Extracts the definition of one parsed struct item; see [`extract_struct`].
pub fn get_struct_def(item: &syn::ItemStruct) -> (r: Result<StructDef, Vec<SchemaError>>)
    ensures
        struct_outcome_view(r) == struct_outcome(struct_syntax(*item)),
{
    let decl = read_struct(item);
    extract_struct(&decl)
}

/// Extracts the definitions of the structs among the top-level items of a
/// parsed file, in document order; see [`extract`].
pub fn get_struct_defs_from_file(file: &syn::File) -> (r: Result<Vec<StructDef>, Vec<SchemaError>>)
    ensures
        outcome_view(r) == file_outcome(file_syntax(*file)),
{
    let model = read_file(file);
    extract(&model)
}

/// The outcome of extraction after parsing: that of the items where parsing
/// gave a file, and the one parse error where it failed.
pub open spec fn parsed_outcome(parsed: Result<Seq<ItemDeclView>, Seq<char>>) -> Result<
    Seq<crate::def::StructDefView>,
    Seq<SchemaErrorView>,
> {
    match parsed {
        Ok(items) => file_outcome(items),
        Err(reason) => Err(seq![SchemaErrorView::Parse { reason }]),
    }
}

/// Extracts the struct definitions from the outcome of parsing: those of the
/// file where there is one, else the parse error with the parser's reason.
pub fn extract_parsed(parsed: Result<SourceFile, String>) -> (r: Result<
    Vec<StructDef>,
    Vec<SchemaError>,
>)
    ensures
        outcome_view(r) == parsed_outcome(
            match parsed {
                Ok(file) => Ok(file@),
                Err(reason) => Err(reason@),
            },
        ),
{
    match parsed {
        Ok(file) => extract(&file),
        Err(reason) => {
            let mut errors: Vec<SchemaError> = Vec::new();
            errors.push(SchemaError::Parse { reason });
            proof {
                assert(crate::error::errors_view(errors@) =~= seq![
                    SchemaErrorView::Parse { reason: reason@ },
                ]);
            }
            Err(errors)
        },
    }
}

/// Parses the tokens as one file and extracts the definitions of the structs
/// among its top-level items, in document order. Fails with the parse error
/// where the tokens are no file, and with the errors of all fields that have
/// no schema type otherwise.
pub fn get_struct_defs(token_stream: proc_macro2::TokenStream) -> (r: Result<
    Vec<StructDef>,
    Vec<SchemaError>,
>)
    ensures
        outcome_view(r) == parsed_outcome(parsed_items(token_stream)),
{
    let parsed = match parse_tokens(token_stream) {
        Ok(file) => Ok(read_file(&file)),
        Err(error) => Err(error_reason(&error)),
    };
    extract_parsed(parsed)
}

} // verus!
