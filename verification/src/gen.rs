//! The code emitter: source text that rebuilds struct definitions.

use crate::def::{
    defs_view, StructDef, StructDefView, StructField, StructFieldView, Type, TypeView,
};
use crate::error::{errors_view, SchemaError, SchemaErrorView};
use crate::extract::{file_outcome, struct_decls, struct_def};
use crate::scope::{
    function_line, function_new, indent_text, scope_import, scope_new, scope_push_fn, scope_text,
    scope_to_string, scope_view, FunctionView, ScopeView,
};
use crate::source::{get_struct_defs, parsed_items, parsed_outcome};
use crate::syntax::ItemDeclView;
use crate::text::{decimal, decimal_injective, escaped, push_decimal, push_escaped};
use vstd::prelude::*;

verus! {

/// The constructor expression of a type: an atom as the atomic constructor
/// applied to its quoted name, a container as the container constructor
/// applied to the boxed expression of the inner type.
pub open spec fn type_text(ty: TypeView) -> Seq<char>
    decreases ty,
{
    match ty {
        TypeView::Atom(name) => "Type::Atom(\""@ + escaped(name) + "\".to_string())"@,
        TypeView::Vec(inner) => "Type::Vec(Box::new("@ + type_text(*inner) + "))"@,
    }
}

/// The literal of a field: its quoted name and the constructor expression of
/// its type.
pub open spec fn field_text(field: StructFieldView) -> Seq<char> {
    "StructField {\n            name: \""@ + escaped(field.name)
        + "\".to_string(),\n            ty: "@ + type_text(field.ty) + "\n        }"@
}

/// The elements of the sequence literal of fields: the field literals in
/// order, separated by a comma and a space; a line break where there is no
/// field.
pub open spec fn fields_text(fields: Seq<StructFieldView>) -> Seq<char>
    decreases fields.len(),
{
    if fields.len() == 0 {
        "\n"@
    } else if fields.len() == 1 {
        field_text(fields[0])
    } else {
        fields_text(fields.drop_last()) + ", "@ + field_text(fields.last())
    }
}

/// The literal of a struct definition: its quoted name and the sequence
/// literal of its fields.
pub open spec fn struct_def_text(def: StructDefView) -> Seq<char> {
    "StructDef {\n        name: \""@ + escaped(def.name)
        + "\".to_string(),\n        fields: vec!["@ + fields_text(def.fields) + "],\n    }"@
}

fn push_type(out: &mut String, ty: &Type)
    ensures
        final(out)@ == old(out)@ + type_text(ty@),
    decreases ty,
{
    match ty {
        Type::Atom(name) => {
            out.append("Type::Atom(\"");
            push_escaped(out, name.as_str());
            out.append("\".to_string())");
        },
        Type::Vec(inner) => {
            out.append("Type::Vec(Box::new(");
            push_type(out, inner);
            out.append("))");
        },
    }
    proof {
        assert(out@ =~= old(out)@ + type_text(ty@));
    }
}

fn push_field(out: &mut String, field: &StructField)
    ensures
        final(out)@ == old(out)@ + field_text(field@),
{
    out.append("StructField {\n            name: \"");
    push_escaped(out, field.name.as_str());
    out.append("\".to_string(),\n            ty: ");
    push_type(out, &field.ty);
    out.append("\n        }");
    proof {
        assert(out@ =~= old(out)@ + field_text(field@));
    }
}

/// Renders the constructor expression of a type.
pub fn generate_type_from_field_ty(ty: Type) -> (text: String)
    ensures
        text@ == type_text(ty@),
{
    let mut out = String::new();
    push_type(&mut out, &ty);
    proof {
        assert(out@ =~= type_text(ty@));
    }
    out
}

/// Renders the literal of a struct definition.
pub fn generate_string_from_struct_def(struct_def: &StructDef) -> (text: String)
    ensures
        text@ == struct_def_text(struct_def@),
{
    let mut out = String::from_str("StructDef {\n        name: \"");
    push_escaped(&mut out, struct_def.name.as_str());
    out.append("\".to_string(),\n        fields: vec![");
    let ghost start = out@;
    let ghost fields = struct_def@.fields;
    if struct_def.fields.len() == 0 {
        out.append("\n");
    } else {
        let mut i: usize = 0;
        while i < struct_def.fields.len()
            invariant
                i <= struct_def.fields.len(),
                fields == struct_def@.fields,
                i == 0 ==> out@ == start,
                i > 0 ==> out@ == start + fields_text(fields.take(i as int)),
            decreases struct_def.fields.len() - i,
        {
            if i > 0 {
                out.append(", ");
            }
            push_field(&mut out, &struct_def.fields[i]);
            proof {
                assert(fields.take(i + 1).drop_last() =~= fields.take(i as int));
                assert(out@ =~= start + fields_text(fields.take(i + 1)));
            }
            i += 1;
        }
        proof {
            assert(fields.take(struct_def.fields.len() as int) =~= fields);
        }
    }
    out.append("],\n    }");
    proof {
        assert(out@ =~= struct_def_text(struct_def@));
    }
    out
}

/// The name of the routine that rebuilds the struct at `index`: `get_structs`
/// for the first, and `get_structs_` followed by the index for the others.
pub open spec fn routine_name(index: nat) -> Seq<char> {
    if index == 0 {
        "get_structs"@
    } else {
        "get_structs"@ + "_"@ + decimal(index)
    }
}

/// The routine that rebuilds the struct at `index`: a function of that name
/// whose body is the literal of the definition.
pub open spec fn routine(index: nat, def: StructDefView) -> FunctionView {
    FunctionView { name: routine_name(index), lines: seq![struct_def_text(def)] }
}

/// The scope generated for a schema: the import of the data model, and one
/// routine for each definition, in the order of the schema.
pub open spec fn generated_scope(defs: Seq<StructDefView>) -> ScopeView {
    ScopeView {
        imports: seq![("rusto::def"@, "*"@)],
        functions: Seq::new(defs.len(), |i: int| routine(i as nat, defs[i])),
    }
}

/// No two routines share a name: the routines at two different places of a
/// schema have different names.
pub proof fn routine_names_are_distinct(i: nat, j: nat)
    requires
        i != j,
    ensures
        routine_name(i) != routine_name(j),
{
    reveal_strlit("get_structs");
    reveal_strlit("_");
    let stem = "get_structs"@ + "_"@;
    if i != 0 && j != 0 {
        if routine_name(i) == routine_name(j) {
            assert((stem + decimal(i)).skip(12) =~= decimal(i));
            assert((stem + decimal(j)).skip(12) =~= decimal(j));
            decimal_injective(i, j);
        }
    }
}

/// No two routines of a generated scope share a name.
pub proof fn generated_names_are_distinct(defs: Seq<StructDefView>, i: int, j: int)
    requires
        0 <= i < defs.len(),
        0 <= j < defs.len(),
        i != j,
    ensures
        generated_scope(defs).functions[i].name != generated_scope(defs).functions[j].name,
{
    routine_names_are_distinct(i as nat, j as nat);
}

/// The routines follow the order of the schema: there is one for each
/// definition, and the one at each place has the name of that place and, as
/// its body, the literal of the definition at that place.
pub proof fn routines_keep_order(defs: Seq<StructDefView>)
    ensures
        generated_scope(defs).functions.len() == defs.len(),
        forall|k: int|
            0 <= k < defs.len() ==> #[trigger] generated_scope(defs).functions[k] == routine(
                k as nat,
                defs[k],
            ),
{
}

/// The routines follow the order of the declarations: where extraction of a
/// compilation unit succeeds, the scope generated for its schema has one
/// routine for each struct declaration of the unit, in document order, and
/// the body of each is the literal of the definition of that declaration.
pub proof fn routines_follow_declarations(items: Seq<ItemDeclView>)
    requires
        file_outcome(items) is Ok,
    ensures
        generated_scope(file_outcome(items)->Ok_0).functions.len() == struct_decls(items).len(),
        forall|k: int|
            0 <= k < struct_decls(items).len() ==> #[trigger] generated_scope(
                file_outcome(items)->Ok_0,
            ).functions[k] == routine(k as nat, struct_def(struct_decls(items)[k])),
{
}

/// `times` copies of a text, one after the other.
pub open spec fn repeated(text: Seq<char>, times: nat) -> Seq<char>
    decreases times,
{
    if times == 0 {
        Seq::empty()
    } else {
        text + repeated(text, (times - 1) as nat)
    }
}

proof fn repeated_at_the_end(text: Seq<char>, times: nat)
    ensures
        repeated(text, times) + text == text + repeated(text, times),
    decreases times,
{
    if times > 0 {
        repeated_at_the_end(text, (times - 1) as nat);
        assert(repeated(text, times) + text =~= text + (repeated(text, (times - 1) as nat)
            + text));
    }
    assert(repeated(text, times) + text =~= text + repeated(text, times));
}

/// Every layer of a nested container is rendered: the expression of an atom
/// inside `depth` layers is the expression of the atom inside `depth`
/// applications of the container constructor.
pub proof fn nested_type_text(leaf: Seq<char>, depth: nat)
    ensures
        type_text(TypeView::nested(leaf, depth)) == repeated("Type::Vec(Box::new("@, depth)
            + type_text(TypeView::Atom(leaf)) + repeated("))"@, depth),
    decreases depth,
{
    let open = "Type::Vec(Box::new("@;
    let close = "))"@;
    let atom = type_text(TypeView::Atom(leaf));
    let text = type_text(TypeView::nested(leaf, depth));
    if depth == 0 {
        assert(text =~= repeated(open, depth) + atom + repeated(close, depth));
    } else {
        let inner = (depth - 1) as nat;
        nested_type_text(leaf, inner);
        repeated_at_the_end(close, inner);
        assert(text == open + type_text(TypeView::nested(leaf, inner)) + close);
        assert(open + (repeated(open, inner) + atom + repeated(close, inner)) + close
            =~= repeated(open, depth) + atom + (repeated(close, inner) + close));
    }
}

fn routine_name_of(index: usize) -> (name: String)
    ensures
        name@ == routine_name(index as nat),
{
    let mut name = String::from_str("get_structs");
    if index > 0 {
        name.append("_");
        push_decimal(&mut name, index);
    }
    name
}

/// Builds the scope that holds the import of the data model and one routine
/// for each definition, in the order given.
pub fn generate_scope_from_struct_defs(struct_defs: Vec<StructDef>) -> (scope: codegen::Scope)
    ensures
        scope_view(scope) == Some(generated_scope(defs_view(struct_defs@))),
{
    let mut scope = scope_new();
    proof {
        reveal_strlit("*");
    }
    scope_import(&mut scope, "rusto::def", "*");
    let ghost defs = defs_view(struct_defs@);
    let mut i: usize = 0;
    proof {
        assert(generated_scope(defs.take(0)).functions =~= Seq::<FunctionView>::empty());
    }
    while i < struct_defs.len()
        invariant
            i <= struct_defs.len(),
            defs == defs_view(struct_defs@),
            scope_view(scope) == Some(generated_scope(defs.take(i as int))),
        decreases struct_defs.len() - i,
    {
        let name = routine_name_of(i);
        let mut function = function_new(name.as_str());
        function_line(&mut function, generate_string_from_struct_def(&struct_defs[i]));
        scope_push_fn(&mut scope, function);
        proof {
            assert(generated_scope(defs.take(i + 1)).functions =~= generated_scope(
                defs.take(i as int),
            ).functions.push(routine(i as nat, defs[i as int])));
        }
        i += 1;
    }
    proof {
        assert(defs.take(struct_defs.len() as int) =~= defs);
    }
    scope
}

/// Renders a schema: the formatted text of the scope generated for it.
pub fn generate_from_struct_defs(struct_defs: Vec<StructDef>) -> (text: String)
    ensures
        text@ == scope_text(generated_scope(defs_view(struct_defs@))),
{
    let scope = generate_scope_from_struct_defs(struct_defs);
    scope_to_string(&scope)
}

/// Extracts the schema of the tokens and builds the scope generated for it.
pub fn generate_scope(token_stream: proc_macro2::TokenStream) -> (r: Result<
    codegen::Scope,
    Vec<SchemaError>,
>)
    ensures
        match parsed_outcome(parsed_items(token_stream)) {
            Ok(defs) => r matches Ok(scope) && scope_view(scope) == Some(generated_scope(defs)),
            Err(errors) => r matches Err(found) && errors_view(found@) == errors,
        },
{
    match get_struct_defs(token_stream) {
        Ok(struct_defs) => Ok(generate_scope_from_struct_defs(struct_defs)),
        Err(errors) => Err(errors),
    }
}

/// The outcome of generation for an outcome of extraction: the formatted text
/// of the scope generated for the schema, or the errors.
pub open spec fn generated_text(outcome: Result<Seq<StructDefView>, Seq<SchemaErrorView>>) -> Result<
    Seq<char>,
    Seq<SchemaErrorView>,
> {
    match outcome {
        Ok(defs) => Ok(scope_text(generated_scope(defs))),
        Err(errors) => Err(errors),
    }
}

/// The value of a generation result.
pub open spec fn text_view(r: Result<String, Vec<SchemaError>>) -> Result<
    Seq<char>,
    Seq<SchemaErrorView>,
> {
    match r {
        Ok(text) => Ok(text@),
        Err(errors) => Err(errors_view(errors@)),
    }
}

/// Extracts the schema of the tokens and renders it.
pub fn generate(token_stream: proc_macro2::TokenStream) -> (r: Result<String, Vec<SchemaError>>)
    ensures
        text_view(r) == generated_text(parsed_outcome(parsed_items(token_stream))),
{
    match get_struct_defs(token_stream) {
        Ok(struct_defs) => Ok(generate_from_struct_defs(struct_defs)),
        Err(errors) => Err(errors),
    }
}

/// Passes rendered text through the formatter, which leaves it as it is: text
/// that went through once is not changed by going through again.
pub fn format_text(text: String) -> (formatted: String)
    ensures
        formatted@ == text@,
{
    indent_text(text)
}

/// Extracts the schema of the tokens, renders it and passes the text through
/// the formatter.
pub fn generate_format(token_stream: proc_macro2::TokenStream) -> (r: Result<
    String,
    Vec<SchemaError>,
>)
    ensures
        text_view(r) == generated_text(parsed_outcome(parsed_items(token_stream))),
{
    match generate(token_stream) {
        Ok(text) => Ok(format_text(text)),
        Err(errors) => Err(errors),
    }
}

} // verus!
