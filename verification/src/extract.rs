//! The schema extractor: from the items of a compilation unit to the struct
//! definitions they declare, or to the errors of the fields that have no
//! schema type.

use crate::def::{defs_view, fields_view, StructDef, StructDefView, StructField, StructFieldView};
use crate::error::{errors_view, field_error, SchemaError, SchemaErrorView};
use crate::resolve::{
    is_multi_argument_generic, is_qualified_path, resolve, resolve_type,
    resolved_type_is_well_formed, unsupported_shapes,
};
use crate::syntax::{
    FieldDecl, FieldDeclView, ItemDecl, ItemDeclView, Members, MembersView, SourceFile, StructDecl,
    StructDeclView,
};
use vstd::prelude::*;
use vstd::seq_lib::lemma_flatten_concat;

verus! {

/// The fields that a member list declares: those of a list of named fields,
/// and none for any other list.
pub open spec fn declared_fields(members: MembersView) -> Seq<FieldDeclView> {
    match members {
        MembersView::Named(fields) => fields,
        _ => Seq::empty(),
    }
}

/// What a field of struct `struct_name` contributes: the field with its schema
/// type, or the error that names the struct and the field.
pub open spec fn field_outcome(struct_name: Seq<char>, field: FieldDeclView) -> Result<
    StructFieldView,
    SchemaErrorView,
> {
    match resolve_type(field.ty) {
        Ok(ty) => Ok(StructFieldView { name: field.name, ty }),
        Err(shape) => Err(field_error(struct_name, field.name, shape)),
    }
}

/// Selects the fields that have a schema type.
pub open spec fn keep_resolved(struct_name: Seq<char>) -> spec_fn(FieldDeclView) -> Option<
    StructFieldView,
> {
    |field: FieldDeclView|
        match field_outcome(struct_name, field) {
            Ok(resolved) => Some(resolved),
            Err(_) => None,
        }
}

/// Selects the errors of the fields that have no schema type.
pub open spec fn keep_error(struct_name: Seq<char>) -> spec_fn(FieldDeclView) -> Option<
    SchemaErrorView,
> {
    |field: FieldDeclView|
        match field_outcome(struct_name, field) {
            Ok(_) => None,
            Err(error) => Some(error),
        }
}

/// Selects the struct declarations among items.
pub open spec fn keep_struct() -> spec_fn(ItemDeclView) -> Option<StructDeclView> {
    |item: ItemDeclView|
        match item {
            ItemDeclView::Struct(decl) => Some(decl),
            ItemDeclView::Other => None,
        }
}

/// The definition that a struct declaration yields: its name, and each field
/// that has a schema type, in declaration order.
pub open spec fn struct_def(decl: StructDeclView) -> StructDefView {
    StructDefView {
        name: decl.name,
        fields: declared_fields(decl.members).filter_map(keep_resolved(decl.name)),
    }
}

/// The errors of a struct declaration: one for each field that has no schema
/// type, in declaration order.
pub open spec fn struct_errors(decl: StructDeclView) -> Seq<SchemaErrorView> {
    declared_fields(decl.members).filter_map(keep_error(decl.name))
}

/// The outcome of extracting one struct declaration: its definition where every
/// field has a schema type, else all its errors.
pub open spec fn struct_outcome(decl: StructDeclView) -> Result<
    StructDefView,
    Seq<SchemaErrorView>,
> {
    if struct_errors(decl).len() == 0 {
        Ok(struct_def(decl))
    } else {
        Err(struct_errors(decl))
    }
}

/// The struct declarations among the items, in document order.
pub open spec fn struct_decls(items: Seq<ItemDeclView>) -> Seq<StructDeclView> {
    items.filter_map(keep_struct())
}

/// The definitions that the struct declarations among the items yield, in
/// document order.
pub open spec fn file_defs(items: Seq<ItemDeclView>) -> Seq<StructDefView> {
    struct_decls(items).map_values(|decl: StructDeclView| struct_def(decl))
}

/// The errors of all struct declarations among the items, in document order.
pub open spec fn file_errors(items: Seq<ItemDeclView>) -> Seq<SchemaErrorView> {
    struct_decls(items).map_values(|decl: StructDeclView| struct_errors(decl)).flatten()
}

/// The outcome of extracting a compilation unit: the definitions of its
/// structs where every field of every struct has a schema type, else all the
/// errors.
pub open spec fn file_outcome(items: Seq<ItemDeclView>) -> Result<
    Seq<StructDefView>,
    Seq<SchemaErrorView>,
> {
    if file_errors(items).len() == 0 {
        Ok(file_defs(items))
    } else {
        Err(file_errors(items))
    }
}

/// The value of an extraction result.
pub open spec fn outcome_view(r: Result<Vec<StructDef>, Vec<SchemaError>>) -> Result<
    Seq<StructDefView>,
    Seq<SchemaErrorView>,
> {
    match r {
        Ok(defs) => Ok(defs_view(defs@)),
        Err(errors) => Err(errors_view(errors@)),
    }
}

/// The value of the extraction result of one struct.
pub open spec fn struct_outcome_view(r: Result<StructDef, Vec<SchemaError>>) -> Result<
    StructDefView,
    Seq<SchemaErrorView>,
> {
    match r {
        Ok(def) => Ok(def@),
        Err(errors) => Err(errors_view(errors@)),
    }
}

/// Extending the items by one extends the definitions and the errors by what
/// that item yields.
proof fn file_step(items: Seq<ItemDeclView>, i: int)
    requires
        0 <= i < items.len(),
    ensures
        file_defs(items.take(i + 1)) == match items[i] {
            ItemDeclView::Struct(decl) => file_defs(items.take(i)).push(struct_def(decl)),
            ItemDeclView::Other => file_defs(items.take(i)),
        },
        file_errors(items.take(i + 1)) == match items[i] {
            ItemDeclView::Struct(decl) => file_errors(items.take(i)) + struct_errors(decl),
            ItemDeclView::Other => file_errors(items.take(i)),
        },
{
    items.lemma_filter_map_take_succ(keep_struct(), i);
    let before = struct_decls(items.take(i));
    match items[i] {
        ItemDeclView::Struct(decl) => {
            assert(struct_decls(items.take(i + 1)) == before.push(decl));
            assert(file_defs(items.take(i + 1)) =~= file_defs(items.take(i)).push(
                struct_def(decl),
            ));
            let errors = |decl: StructDeclView| struct_errors(decl);
            assert(before.push(decl).map_values(errors) =~= before.map_values(errors) + seq![
                struct_errors(decl),
            ]);
            lemma_flatten_concat(before.map_values(errors), seq![struct_errors(decl)]);
            seq![struct_errors(decl)].lemma_flatten_one_element();
        },
        ItemDeclView::Other => {
            assert(struct_decls(items.take(i + 1)) == before);
        },
    }
}

/// The field that a declared field becomes once its type is resolved.
pub open spec fn resolved_field(field: FieldDeclView) -> StructFieldView {
    StructFieldView { name: field.name, ty: resolve_type(field.ty)->Ok_0 }
}

/// Among fields, there is no error exactly when every type resolves, and then
/// the resolved fields are all the fields, one for one.
proof fn fields_without_errors(struct_name: Seq<char>, fields: Seq<FieldDeclView>)
    ensures
        fields.filter_map(keep_error(struct_name)).len() == 0 <==> forall|i: int|
            0 <= i < fields.len() ==> resolve_type(#[trigger] fields[i].ty) is Ok,
        fields.filter_map(keep_error(struct_name)).len() == 0 ==> fields.filter_map(
            keep_resolved(struct_name),
        ) == fields.map_values(|field: FieldDeclView| resolved_field(field)),
    decreases fields.len(),
{
    if fields.len() > 0 {
        let rest = fields.drop_last();
        fields_without_errors(struct_name, rest);
        if fields.filter_map(keep_error(struct_name)).len() == 0 {
            assert forall|i: int| 0 <= i < fields.len() implies resolve_type(
                #[trigger] fields[i].ty,
            ) is Ok by {
                if i < fields.len() - 1 {
                    assert(fields[i] == rest[i]);
                }
            }
            assert(fields.filter_map(keep_resolved(struct_name)) =~= fields.map_values(
                |field: FieldDeclView| resolved_field(field),
            ));
        }
        if forall|i: int| 0 <= i < fields.len() ==> resolve_type(#[trigger] fields[i].ty) is Ok {
            assert forall|i: int| 0 <= i < rest.len() implies resolve_type(
                #[trigger] rest[i].ty,
            ) is Ok by {
                assert(rest[i] == fields[i]);
            }
            assert(resolve_type(fields[fields.len() - 1].ty) is Ok);
        }
    } else {
        assert(fields.filter_map(keep_resolved(struct_name)) =~= fields.map_values(
            |field: FieldDeclView| resolved_field(field),
        ));
    }
}

/// Among fields, the error of each field whose type does not resolve is among
/// the errors.
proof fn field_error_is_kept(struct_name: Seq<char>, fields: Seq<FieldDeclView>, i: int)
    requires
        0 <= i < fields.len(),
        resolve_type(fields[i].ty) is Err,
    ensures
        fields.filter_map(keep_error(struct_name)).contains(
            field_error(struct_name, fields[i].name, resolve_type(fields[i].ty)->Err_0),
        ),
    decreases fields.len(),
{
    let rest = fields.drop_last();
    let errors = fields.filter_map(keep_error(struct_name));
    let wanted = field_error(struct_name, fields[i].name, resolve_type(fields[i].ty)->Err_0);
    if i == fields.len() - 1 {
        assert(errors == rest.filter_map(keep_error(struct_name)) + seq![wanted]);
        assert(errors[errors.len() - 1] == wanted);
    } else {
        field_error_is_kept(struct_name, rest, i);
        assert(rest[i] == fields[i]);
        let before = rest.filter_map(keep_error(struct_name));
        let at = choose|at: int| 0 <= at < before.len() && before[at] == wanted;
        assert(errors[at] == wanted);
    }
}

/// The errors of a struct among the items are among the errors of the items.
proof fn struct_error_is_kept(items: Seq<ItemDeclView>, k: int, error: SchemaErrorView)
    requires
        0 <= k < items.len(),
        items[k] matches ItemDeclView::Struct(decl) && struct_errors(decl).contains(error),
    ensures
        file_errors(items).contains(error),
    decreases items.len(),
{
    let last = items.len() - 1;
    file_step(items, last);
    assert(items.take(last + 1) =~= items);
    let before = file_errors(items.take(last));
    if k == last {
        let own = struct_errors(items[k]->Struct_0);
        let at = choose|at: int| 0 <= at < own.len() && own[at] == error;
        assert(file_errors(items)[before.len() + at] == error);
    } else {
        assert(items.take(last)[k] == items[k]);
        struct_error_is_kept(items.take(last), k, error);
        let at = choose|at: int| 0 <= at < before.len() && before[at] == error;
        assert(file_errors(items)[at] == error);
    }
}

/// The definition that a struct declaration yields is well formed: every atom
/// in the type of every field has a name.
pub proof fn struct_def_is_well_formed(decl: StructDeclView)
    ensures
        struct_def(decl).well_formed(),
{
    let declared = declared_fields(decl.members);
    let fields = struct_def(decl).fields;
    assert forall|i: int| 0 <= i < fields.len() implies (#[trigger] fields[i]).ty.well_formed() by {
        assert(fields.contains(fields[i]));
        declared.lemma_filter_map_contains(keep_resolved(decl.name), fields[i]);
        let from = choose|from: FieldDeclView| #[trigger]
            declared.contains(from) && keep_resolved(decl.name)(from) == Some(fields[i]);
        resolved_type_is_well_formed(from.ty);
    }
}

/// Every definition that a compilation unit yields is well formed.
pub proof fn file_defs_are_well_formed(items: Seq<ItemDeclView>)
    ensures
        forall|k: int|
            0 <= k < file_defs(items).len() ==> (#[trigger] file_defs(items)[k]).well_formed(),
{
    assert forall|k: int| 0 <= k < file_defs(items).len() implies (#[trigger] file_defs(
        items,
    )[k]).well_formed() by {
        struct_def_is_well_formed(struct_decls(items)[k]);
    }
}

/// No field is left out, and declaration order is kept: extraction of a struct
/// succeeds exactly when the type of every declared field resolves, and the
/// definition then has the declared fields, one for one and in the same order,
/// each with its name and the type that its type expression denotes.
pub proof fn extracted_fields_keep_order(decl: StructDeclView)
    ensures
        struct_outcome(decl) is Ok <==> forall|i: int|
            0 <= i < declared_fields(decl.members).len() ==> resolve_type(
                #[trigger] declared_fields(decl.members)[i].ty,
            ) is Ok,
        struct_outcome(decl) matches Ok(def) ==> def.name == decl.name && def.fields.len()
            == declared_fields(decl.members).len() && forall|i: int|
            0 <= i < def.fields.len() ==> #[trigger] def.fields[i] == resolved_field(
                declared_fields(decl.members)[i],
            ),
{
    fields_without_errors(decl.name, declared_fields(decl.members));
}

/// The compilation unit made of the struct declarations alone, in order.
pub open spec fn struct_items(decls: Seq<StructDeclView>) -> Seq<ItemDeclView> {
    decls.map_values(|decl: StructDeclView| ItemDeclView::Struct(decl))
}

/// Document order is kept: the definitions of a compilation unit made of
/// struct declarations only are those of the declarations, one for one and in
/// the same order.
pub proof fn extracted_structs_keep_order(decls: Seq<StructDeclView>)
    ensures
        struct_decls(struct_items(decls)) == decls,
        file_defs(struct_items(decls)).len() == decls.len(),
        forall|k: int|
            0 <= k < decls.len() ==> #[trigger] file_defs(struct_items(decls))[k] == struct_def(
                decls[k],
            ),
    decreases decls.len(),
{
    let items = struct_items(decls);
    if decls.len() > 0 {
        extracted_structs_keep_order(decls.drop_last());
        assert(items.drop_last() =~= struct_items(decls.drop_last()));
        assert(struct_decls(items) =~= decls);
    } else {
        assert(struct_decls(items) =~= decls);
    }
}

/// Items that are not structs are transparent: a compilation unit yields what
/// the unit made of its struct declarations alone, in their order, yields.
pub proof fn other_items_are_transparent(items: Seq<ItemDeclView>)
    ensures
        file_outcome(items) == file_outcome(struct_items(struct_decls(items))),
{
    extracted_structs_keep_order(struct_decls(items));
}

/// A struct without declared fields yields a definition without fields, and
/// no error.
pub proof fn empty_struct_extracts(decl: StructDeclView)
    requires
        declared_fields(decl.members).len() == 0,
    ensures
        struct_outcome(decl) == Ok::<StructDefView, Seq<SchemaErrorView>>(
            StructDefView { name: decl.name, fields: Seq::empty() },
        ),
{
    assert(struct_def(decl).fields =~= Seq::<StructFieldView>::empty());
}

/// A field whose type does not resolve fails loudly: extraction of the
/// compilation unit fails, and its errors hold the one that names the struct
/// and the field and tells how the type expression failed.
pub proof fn failing_field_fails_extraction(items: Seq<ItemDeclView>, k: int, i: int)
    requires
        0 <= k < items.len(),
        items[k] matches ItemDeclView::Struct(decl) && 0 <= i < declared_fields(
            decl.members,
        ).len() && resolve_type(declared_fields(decl.members)[i].ty) is Err,
    ensures
        ({
            let decl = items[k]->Struct_0;
            let field = declared_fields(decl.members)[i];
            let error = field_error(decl.name, field.name, resolve_type(field.ty)->Err_0);
            &&& struct_outcome(decl) matches Err(errors) && errors.contains(error)
            &&& file_outcome(items) matches Err(errors) && errors.contains(error)
        }),
{
    let decl = items[k]->Struct_0;
    let field = declared_fields(decl.members)[i];
    let error = field_error(decl.name, field.name, resolve_type(field.ty)->Err_0);
    field_error_is_kept(decl.name, declared_fields(decl.members), i);
    struct_error_is_kept(items, k, error);
}

/// A field whose type is no path, a qualified path, or a name with two or more
/// arguments makes extraction fail with the unsupported-shape error that names
/// the struct and the field.
pub proof fn unsupported_field_fails_extraction(items: Seq<ItemDeclView>, k: int, i: int)
    requires
        0 <= k < items.len(),
        items[k] matches ItemDeclView::Struct(decl) && 0 <= i < declared_fields(
            decl.members,
        ).len() && ({
            let ty = declared_fields(decl.members)[i].ty;
            ty is Other || is_qualified_path(ty) || is_multi_argument_generic(ty)
        }),
    ensures
        file_outcome(items) matches Err(errors) && errors.contains(
            SchemaErrorView::UnsupportedTypeShape {
                struct_name: items[k]->Struct_0.name,
                field_name: declared_fields(items[k]->Struct_0.members)[i].name,
            },
        ),
{
    unsupported_shapes(declared_fields(items[k]->Struct_0.members)[i].ty);
    failing_field_fails_extraction(items, k, i);
}

/// Resolves every field of a struct declaration, and returns the definition
/// made of the fields that resolved beside the errors of those that did not.
fn scan_struct(decl: &StructDecl) -> (r: (StructDef, Vec<SchemaError>))
    ensures
        r.0@ == struct_def(decl@),
        errors_view(r.1@) == struct_errors(decl@),
{
    let mut fields: Vec<StructField> = Vec::new();
    let mut errors: Vec<SchemaError> = Vec::new();
    let ghost declared_view = declared_fields(decl@.members);
    match &decl.members {
        Members::Named(declared) => {
            let mut i: usize = 0;
            while i < declared.len()
                invariant
                    i <= declared.len(),
                    declared_view.len() == declared.len(),
                    forall|j: int| 0 <= j < declared.len() ==> declared_view[j] == declared[j]@,
                    fields_view(fields@) == declared_view.take(i as int).filter_map(
                        keep_resolved(decl.name@),
                    ),
                    errors_view(errors@) == declared_view.take(i as int).filter_map(
                        keep_error(decl.name@),
                    ),
                decreases declared.len() - i,
            {
                let field = &declared[i];
                match resolve(&field.ty) {
                    Ok(ty) => {
                        fields.push(StructField { name: field.name.clone(), ty });
                    },
                    Err(shape) => {
                        errors.push(SchemaError::for_field(&decl.name, &field.name, shape));
                    },
                }
                proof {
                    declared_view.lemma_filter_map_take_succ(keep_resolved(decl.name@), i as int);
                    declared_view.lemma_filter_map_take_succ(keep_error(decl.name@), i as int);
                    assert(fields_view(fields@) =~= declared_view.take(i + 1).filter_map(
                        keep_resolved(decl.name@),
                    ));
                    assert(errors_view(errors@) =~= declared_view.take(i + 1).filter_map(
                        keep_error(decl.name@),
                    ));
                }
                i += 1;
            }
            proof {
                assert(declared_view.take(declared.len() as int) =~= declared_view);
            }
        },
        _ => {
            proof {
                assert(fields_view(fields@) =~= Seq::<StructFieldView>::empty());
                assert(errors_view(errors@) =~= Seq::<SchemaErrorView>::empty());
            }
        },
    }
    (StructDef { name: decl.name.clone(), fields }, errors)
}

/// Extracts the definition of one struct declaration.
///
/// Every field is resolved; a field that has no schema type is never left out
/// of a definition: it makes the extraction fail with one error for each such
/// field. Fields that share a name are all kept, each at its place.
pub fn extract_struct(decl: &StructDecl) -> (r: Result<StructDef, Vec<SchemaError>>)
    ensures
        struct_outcome_view(r) == struct_outcome(decl@),
        r matches Ok(def) ==> def@.well_formed(),
{
    proof {
        struct_def_is_well_formed(decl@);
    }
    let (def, errors) = scan_struct(decl);
    if errors.len() == 0 {
        Ok(def)
    } else {
        Err(errors)
    }
}

/// Extracts the definitions of all structs of a compilation unit, in document
/// order. Items that are not structs are passed over. Where some field has
/// no schema type, the extraction fails with the errors of all such fields.
pub fn extract(file: &SourceFile) -> (r: Result<Vec<StructDef>, Vec<SchemaError>>)
    ensures
        outcome_view(r) == file_outcome(file@),
        r matches Ok(defs) ==> forall|k: int|
            0 <= k < defs.len() ==> (#[trigger] defs[k])@.well_formed(),
{
    proof {
        file_defs_are_well_formed(file@);
    }
    let mut defs: Vec<StructDef> = Vec::new();
    let mut errors: Vec<SchemaError> = Vec::new();
    let ghost items = file@;
    let mut i: usize = 0;
    proof {
        assert(defs_view(defs@) =~= file_defs(items.take(0)));
        assert(errors_view(errors@) =~= file_errors(items.take(0)));
    }
    while i < file.items.len()
        invariant
            i <= file.items.len(),
            items == file@,
            defs_view(defs@) == file_defs(items.take(i as int)),
            errors_view(errors@) == file_errors(items.take(i as int)),
        decreases file.items.len() - i,
    {
        proof {
            file_step(items, i as int);
        }
        match &file.items[i] {
            ItemDecl::Struct(decl) => {
                let (def, mut found) = scan_struct(decl);
                let ghost defs_before = defs@;
                let ghost errors_before = errors@;
                let ghost found_before = found@;
                defs.push(def);
                errors.append(&mut found);
                proof {
                    assert(defs_view(defs@) =~= defs_view(defs_before).push(def@));
                    assert(errors_view(errors@) =~= errors_view(errors_before) + errors_view(
                        found_before,
                    ));
                }
            },
            ItemDecl::Other => {},
        }
        i += 1;
    }
    proof {
        assert(items.take(file.items.len() as int) =~= items);
        assert forall|k: int| 0 <= k < defs.len() implies (#[trigger] defs[k])@.well_formed() by {
            assert(defs_view(defs@)[k] == defs[k]@);
        }
    }
    if errors.len() == 0 {
        Ok(defs)
    } else {
        Err(errors)
    }
}

} // verus!
