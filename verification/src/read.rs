//! Reading rendered literals back: what the constructor text of a type, a
//! field or a struct definition rebuilds, and the proof that it rebuilds the
//! value it was rendered from.

use crate::def::{StructDefView, StructFieldView, TypeView};
use crate::extract::struct_outcome;
use crate::syntax::StructDeclView;
use crate::gen::{field_text, fields_text, generated_scope, struct_def_text, type_text};
use crate::text::{escaped, escaped_char};
use vstd::prelude::*;

verus! {

/// What is left of a text after the given prefix; `None` where the text does
/// not start with it.
pub open spec fn after(text: Seq<char>, prefix: Seq<char>) -> Option<Seq<char>> {
    if prefix.is_prefix_of(text) {
        Some(text.skip(prefix.len() as int))
    } else {
        None
    }
}

/// The character that stands behind a backslash for the given one.
pub open spec fn unescaped_char(code: char) -> Option<char> {
    if code == '"' {
        Some('"')
    } else if code == '\\' {
        Some('\\')
    } else if code == 'n' {
        Some('\n')
    } else if code == 'r' {
        Some('\r')
    } else {
        None
    }
}

/// Reads the inside of a quoted string literal from the front of a text, up
/// to the closing quote: the string it denotes, and the text from the quote
/// on.
pub open spec fn read_name(text: Seq<char>) -> Option<(Seq<char>, Seq<char>)>
    decreases text.len(),
{
    if text.len() == 0 {
        None
    } else if text[0] == '"' {
        Some((Seq::empty(), text))
    } else if text[0] == '\\' {
        if text.len() < 2 {
            None
        } else {
            match (unescaped_char(text[1]), read_name(text.skip(2))) {
                (Some(c), Some((name, rest))) => Some((seq![c] + name, rest)),
                _ => None,
            }
        }
    } else {
        match read_name(text.skip(1)) {
            Some((name, rest)) => Some((seq![text[0]] + name, rest)),
            None => None,
        }
    }
}

/// Reads the constructor expression of a type from the front of a text: the
/// type it rebuilds, and the text behind it.
pub open spec fn read_type(text: Seq<char>) -> Option<(TypeView, Seq<char>)>
    decreases text.len(),
{
    if let Some(quoted) = after(text, "Type::Atom(\""@) {
        match read_name(quoted) {
            Some((name, closing)) => match after(closing, "\".to_string())"@) {
                Some(rest) => Some((TypeView::Atom(name), rest)),
                None => None,
            },
            None => None,
        }
    } else if let Some(inside) = after(text, "Type::Vec(Box::new("@) {
        if inside.len() < text.len() {
            match read_type(inside) {
                Some((inner, closing)) => match after(closing, "))"@) {
                    Some(rest) => Some((TypeView::Vec(Box::new(inner)), rest)),
                    None => None,
                },
                None => None,
            }
        } else {
            None
        }
    } else {
        None
    }
}

/// Reads the literal of a field from the front of a text: the field it
/// rebuilds, and the text behind it.
#[verifier::opaque]
pub open spec fn read_field(text: Seq<char>) -> Option<(StructFieldView, Seq<char>)> {
    match after(text, "StructField {\n            name: \""@) {
        Some(quoted) => match read_name(quoted) {
            Some((name, closing)) => match after(closing, "\".to_string(),\n            ty: "@) {
                Some(typed) => match read_type(typed) {
                    Some((ty, end)) => match after(end, "\n        }"@) {
                        Some(rest) => Some((StructFieldView { name, ty }, rest)),
                        None => None,
                    },
                    None => None,
                },
                None => None,
            },
            None => None,
        },
        None => None,
    }
}

/// Reads further field literals, each behind a comma and a space, for as long
/// as the text goes on with a comma and a space: the fields read so far with
/// those read now, and the text behind them.
pub open spec fn read_more_fields(fields: Seq<StructFieldView>, text: Seq<char>) -> Option<
    (Seq<StructFieldView>, Seq<char>),
>
    decreases text.len(),
{
    match after(text, ", "@) {
        None => Some((fields, text)),
        Some(next) => match read_field(next) {
            Some((field, rest)) => if rest.len() < text.len() {
                read_more_fields(fields.push(field), rest)
            } else {
                None
            },
            None => None,
        },
    }
}

/// Reads the elements of a sequence literal of fields from the front of a
/// text: no field where the text starts with a line break, else the field
/// literals separated by a comma and a space.
pub open spec fn read_fields(text: Seq<char>) -> Option<(Seq<StructFieldView>, Seq<char>)> {
    match after(text, "\n"@) {
        Some(rest) => Some((Seq::empty(), rest)),
        None => match read_field(text) {
            Some((field, rest)) => read_more_fields(seq![field], rest),
            None => None,
        },
    }
}

/// Reads the literal of a struct definition from the front of a text: the
/// definition it rebuilds, and the text behind it.
pub open spec fn read_struct_def(text: Seq<char>) -> Option<(StructDefView, Seq<char>)> {
    match after(text, "StructDef {\n        name: \""@) {
        Some(quoted) => match read_name(quoted) {
            Some((name, closing)) => match after(
                closing,
                "\".to_string(),\n        fields: vec!["@,
            ) {
                Some(listed) => match read_fields(listed) {
                    Some((fields, end)) => match after(end, "],\n    }"@) {
                        Some(rest) => Some((StructDefView { name, fields }, rest)),
                        None => None,
                    },
                    None => None,
                },
                None => None,
            },
            None => None,
        },
        None => None,
    }
}

proof fn after_own_prefix(prefix: Seq<char>, rest: Seq<char>)
    ensures
        after(prefix + rest, prefix) == Some(rest),
{
    assert((prefix + rest).subrange(0, prefix.len() as int) =~= prefix);
    assert((prefix + rest).skip(prefix.len() as int) =~= rest);
}

proof fn after_other_start(text: Seq<char>, prefix: Seq<char>, at: int)
    requires
        0 <= at < prefix.len(),
        at < text.len() ==> text[at] != prefix[at],
    ensures
        after(text, prefix) is None,
{
    if prefix.is_prefix_of(text) {
        assert(text.subrange(0, prefix.len() as int)[at] == text[at]);
    }
}

proof fn escaped_from_the_front(c: char, name: Seq<char>)
    ensures
        escaped(seq![c] + name) == escaped_char(c) + escaped(name),
    decreases name.len(),
{
    let whole = seq![c] + name;
    if name.len() == 0 {
        assert(whole.drop_last() =~= Seq::<char>::empty());
        assert(escaped(whole.drop_last()) =~= Seq::<char>::empty());
        assert(escaped(whole) =~= escaped_char(c) + escaped(name));
    } else {
        escaped_from_the_front(c, name.drop_last());
        assert(whole.drop_last() =~= seq![c] + name.drop_last());
        assert(whole.last() == name.last());
        assert(escaped(whole) =~= escaped_char(c) + escaped(name));
    }
}

/// A name is read back from its escaped form, where a quote follows.
pub proof fn name_reads_back(name: Seq<char>, rest: Seq<char>)
    requires
        rest.len() > 0,
        rest[0] == '"',
    ensures
        read_name(escaped(name) + rest) == Some((name, rest)),
    decreases name.len(),
{
    let text = escaped(name) + rest;
    if name.len() == 0 {
        assert(text =~= rest);
    } else {
        let c = name[0];
        let tail = name.skip(1);
        assert(name =~= seq![c] + tail);
        escaped_from_the_front(c, tail);
        name_reads_back(tail, rest);
        let next = escaped(tail) + rest;
        assert(text =~= escaped_char(c) + next);
        if c == '"' || c == '\\' || c == '\n' || c == '\r' {
            assert(text[0] == '\\');
            assert(unescaped_char(text[1]) == Some(c));
            assert(text.skip(2) =~= next);
        } else {
            assert(text[0] == c);
            assert(text.skip(1) =~= next);
        }
    }
}

/// The constructor expression of a type rebuilds the type: reading the
/// rendered text gives the type back, with whatever text follows it.
#[verifier::rlimit(40)]
pub proof fn type_reads_back(ty: TypeView, rest: Seq<char>)
    ensures
        read_type(type_text(ty) + rest) == Some((ty, rest)),
    decreases ty,
{
    reveal_strlit("Type::Atom(\"");
    reveal_strlit("\".to_string())");
    reveal_strlit("Type::Vec(Box::new(");
    reveal_strlit("))");
    let text = type_text(ty) + rest;
    match ty {
        TypeView::Atom(name) => {
            let closing = "\".to_string())"@ + rest;
            let quoted = escaped(name) + closing;
            assert(text =~= "Type::Atom(\""@ + quoted);
            after_own_prefix("Type::Atom(\""@, quoted);
            name_reads_back(name, closing);
            after_own_prefix("\".to_string())"@, rest);
        },
        TypeView::Vec(inner) => {
            let closing = "))"@ + rest;
            let inside = type_text(*inner) + closing;
            assert(text =~= "Type::Vec(Box::new("@ + inside);
            after_other_start(text, "Type::Atom(\""@, 6);
            after_own_prefix("Type::Vec(Box::new("@, inside);
            type_reads_back(*inner, closing);
            after_own_prefix("))"@, rest);
        },
    }
}

/// The literal of a field rebuilds the field.
#[verifier::rlimit(40)]
pub proof fn field_reads_back(field: StructFieldView, rest: Seq<char>)
    ensures
        read_field(field_text(field) + rest) == Some((field, rest)),
{
    reveal(read_field);
    reveal_strlit("\".to_string(),\n            ty: ");
    let end = "\n        }"@ + rest;
    let typed = type_text(field.ty) + end;
    let closing = "\".to_string(),\n            ty: "@ + typed;
    let quoted = escaped(field.name) + closing;
    assert(field_text(field) + rest =~= "StructField {\n            name: \""@ + quoted);
    after_own_prefix("StructField {\n            name: \""@, quoted);
    name_reads_back(field.name, closing);
    after_own_prefix("\".to_string(),\n            ty: "@, typed);
    type_reads_back(field.ty, end);
    after_own_prefix("\n        }"@, rest);
}

/// The field literals behind the first: each behind a comma and a space.
pub open spec fn more_fields_text(fields: Seq<StructFieldView>) -> Seq<char>
    decreases fields.len(),
{
    if fields.len() == 0 {
        Seq::empty()
    } else {
        ", "@ + field_text(fields[0]) + more_fields_text(fields.skip(1))
    }
}

proof fn more_fields_text_at_the_end(fields: Seq<StructFieldView>, field: StructFieldView)
    ensures
        more_fields_text(fields.push(field)) == more_fields_text(fields) + ", "@ + field_text(
            field,
        ),
    decreases fields.len(),
{
    let all = fields.push(field);
    if fields.len() == 0 {
        assert(all.skip(1) =~= Seq::<StructFieldView>::empty());
        assert(all[0] == field);
        assert(more_fields_text(all.skip(1)) =~= Seq::<char>::empty());
        assert(more_fields_text(fields) =~= Seq::<char>::empty());
        assert(more_fields_text(all) == ", "@ + field_text(all[0]) + more_fields_text(
            all.skip(1),
        ));
        assert(more_fields_text(all) =~= more_fields_text(fields) + ", "@ + field_text(field));
    } else {
        more_fields_text_at_the_end(fields.skip(1), field);
        assert(all.skip(1) =~= fields.skip(1).push(field));
        assert(all[0] == fields[0]);
        let head = ", "@ + field_text(fields[0]);
        assert(more_fields_text(all) == head + more_fields_text(all.skip(1)));
        assert(more_fields_text(fields) == head + more_fields_text(fields.skip(1)));
        assert(head + (more_fields_text(fields.skip(1)) + ", "@ + field_text(field)) =~= head
            + more_fields_text(fields.skip(1)) + ", "@ + field_text(field));
    }
}

proof fn fields_text_from_the_front(fields: Seq<StructFieldView>)
    requires
        fields.len() > 0,
    ensures
        fields_text(fields) == field_text(fields[0]) + more_fields_text(fields.skip(1)),
    decreases fields.len(),
{
    if fields.len() == 1 {
        assert(fields.skip(1) =~= Seq::<StructFieldView>::empty());
        assert(fields_text(fields) =~= field_text(fields[0]) + more_fields_text(fields.skip(1)));
    } else {
        let front = fields.drop_last();
        fields_text_from_the_front(front);
        more_fields_text_at_the_end(front.skip(1), fields.last());
        assert(front.skip(1).push(fields.last()) =~= fields.skip(1));
        assert(fields_text(fields) =~= field_text(fields[0]) + more_fields_text(fields.skip(1)));
    }
}

proof fn field_text_starts(field: StructFieldView)
    ensures
        field_text(field).len() > 0,
        field_text(field)[0] == 'S',
{
    reveal_strlit("StructField {\n            name: \"");
}

#[verifier::rlimit(40)]
proof fn more_fields_read_back(
    read: Seq<StructFieldView>,
    fields: Seq<StructFieldView>,
    rest: Seq<char>,
)
    requires
        after(rest, ", "@) is None,
    ensures
        read_more_fields(read, more_fields_text(fields) + rest) == Some((read + fields, rest)),
    decreases fields.len(),
{
    let text = more_fields_text(fields) + rest;
    if fields.len() == 0 {
        assert(text =~= rest);
        assert(read + fields =~= read);
    } else {
        reveal_strlit(", ");
        let behind = more_fields_text(fields.skip(1)) + rest;
        let next = field_text(fields[0]) + behind;
        assert(text =~= ", "@ + next);
        after_own_prefix(", "@, next);
        field_reads_back(fields[0], behind);
        assert(behind.len() < text.len());
        more_fields_read_back(read.push(fields[0]), fields.skip(1), rest);
        assert(read.push(fields[0]) + fields.skip(1) =~= read + fields);
    }
}

proof fn field_is_no_line_break(field: StructFieldView, behind: Seq<char>)
    ensures
        after(field_text(field) + behind, "\n"@) is None,
{
    field_text_starts(field);
    reveal_strlit("\n");
    after_other_start(field_text(field) + behind, "\n"@, 0);
}

proof fn bracket_is_no_separator(rest: Seq<char>)
    requires
        rest.len() > 0,
        rest[0] == ']',
    ensures
        after(rest, ", "@) is None,
{
    reveal_strlit(", ");
    after_other_start(rest, ", "@, 0);
}

/// The elements of a sequence literal of fields rebuild the fields, in order,
/// where the text goes on with the end of the sequence literal.
#[verifier::rlimit(40)]
pub proof fn fields_read_back(fields: Seq<StructFieldView>, rest: Seq<char>)
    requires
        rest.len() > 0,
        rest[0] == ']',
    ensures
        read_fields(fields_text(fields) + rest) == Some((fields, rest)),
{
    if fields.len() == 0 {
        after_own_prefix("\n"@, rest);
        assert(fields =~= Seq::<StructFieldView>::empty());
    } else {
        let first = fields[0];
        let others = fields.skip(1);
        let behind = more_fields_text(others) + rest;
        let text = field_text(first) + behind;
        assert(fields_text(fields) + rest =~= text) by {
            fields_text_from_the_front(fields);
        }
        field_is_no_line_break(first, behind);
        field_reads_back(first, behind);
        bracket_is_no_separator(rest);
        more_fields_read_back(seq![first], others, rest);
        assert(seq![first] + others =~= fields);
        assert(read_fields(text) == read_more_fields(seq![first], behind));
    }
}

/// The round trip: the literal of a struct definition rebuilds the
/// definition. Reading the rendered text gives back the definition it was
/// rendered from, name for name, field for field and type for type, with
/// whatever text follows it.
#[verifier::rlimit(40)]
pub proof fn struct_def_reads_back(def: StructDefView, rest: Seq<char>)
    ensures
        read_struct_def(struct_def_text(def) + rest) == Some((def, rest)),
{
    reveal_strlit("\".to_string(),\n        fields: vec![");
    reveal_strlit("],\n    }");
    let end = "],\n    }"@ + rest;
    let listed = fields_text(def.fields) + end;
    let closing = "\".to_string(),\n        fields: vec!["@ + listed;
    let quoted = escaped(def.name) + closing;
    assert(struct_def_text(def) + rest =~= "StructDef {\n        name: \""@ + quoted);
    after_own_prefix("StructDef {\n        name: \""@, quoted);
    name_reads_back(def.name, closing);
    after_own_prefix("\".to_string(),\n        fields: vec!["@, listed);
    fields_read_back(def.fields, end);
    after_own_prefix("],\n    }"@, rest);
}

/// The round trip from a declaration: where extraction of a struct
/// declaration succeeds, the literal rendered for the extracted definition
/// rebuilds that same definition.
pub proof fn extracted_struct_reads_back(decl: StructDeclView)
    requires
        struct_outcome(decl) is Ok,
    ensures
        read_struct_def(struct_def_text(struct_outcome(decl)->Ok_0)) == Some(
            (struct_outcome(decl)->Ok_0, Seq::<char>::empty()),
        ),
{
    let def = struct_outcome(decl)->Ok_0;
    struct_def_reads_back(def, Seq::empty());
    assert(struct_def_text(def) + Seq::<char>::empty() =~= struct_def_text(def));
}

/// Each routine of a generated scope rebuilds its definition: the body of the
/// routine at each place of the schema reads back as the definition at that
/// place.
pub proof fn routine_reads_back(defs: Seq<StructDefView>, k: int)
    requires
        0 <= k < defs.len(),
    ensures
        generated_scope(defs).functions[k].lines.len() == 1,
        read_struct_def(generated_scope(defs).functions[k].lines[0]) == Some(
            (defs[k], Seq::<char>::empty()),
        ),
{
    struct_def_reads_back(defs[k], Seq::empty());
    assert(struct_def_text(defs[k]) + Seq::<char>::empty() =~= struct_def_text(defs[k]));
}

/// Rendering loses nothing: two struct definitions with the same literal are
/// the same definition.
pub proof fn struct_def_text_is_injective(a: StructDefView, b: StructDefView)
    requires
        struct_def_text(a) == struct_def_text(b),
    ensures
        a == b,
{
    struct_def_reads_back(a, Seq::empty());
    struct_def_reads_back(b, Seq::empty());
}

/// Rendering loses nothing: two types with the same constructor expression
/// are the same type.
pub proof fn type_text_is_injective(a: TypeView, b: TypeView)
    requires
        type_text(a) == type_text(b),
    ensures
        a == b,
{
    type_reads_back(a, Seq::empty());
    type_reads_back(b, Seq::empty());
}

} // verus!
