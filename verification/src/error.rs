//! What can go wrong while a schema is extracted.

use vstd::prelude::*;

verus! {

/// Why a type expression has no schema type.
#[derive(Debug, PartialEq, Eq, Clone, Copy, Structural)]
pub enum ShapeError {
    /// The expression is neither a plain name nor the container applied to one
    /// type.
    Unsupported,
    /// The container is written without the type it contains.
    MissingArgument,
}

/// Mathematical value of a [`SchemaError`].
pub enum SchemaErrorView {
    Parse { reason: Seq<char> },
    UnsupportedTypeShape { struct_name: Seq<char>, field_name: Seq<char> },
    MissingGenericArgument { struct_name: Seq<char>, field_name: Seq<char> },
}

/// A failure of schema extraction.
#[derive(Debug, PartialEq, Eq)]
pub enum SchemaError {
    /// The source could not be parsed; `reason` is the parser's account.
    Parse { reason: String },
    /// The type of field `field_name` of struct `struct_name` is neither a
    /// plain name nor the container applied to one type.
    UnsupportedTypeShape { struct_name: String, field_name: String },
    /// The type of field `field_name` of struct `struct_name` is the container
    /// without the type it contains.
    MissingGenericArgument { struct_name: String, field_name: String },
}

impl View for SchemaError {
    type V = SchemaErrorView;

    open spec fn view(&self) -> SchemaErrorView {
        match self {
            SchemaError::Parse { reason } => SchemaErrorView::Parse { reason: reason@ },
            SchemaError::UnsupportedTypeShape { struct_name, field_name } => {
                SchemaErrorView::UnsupportedTypeShape {
                    struct_name: struct_name@,
                    field_name: field_name@,
                }
            },
            SchemaError::MissingGenericArgument { struct_name, field_name } => {
                SchemaErrorView::MissingGenericArgument {
                    struct_name: struct_name@,
                    field_name: field_name@,
                }
            },
        }
    }
}

/// The values of a sequence of errors, in the same order.
pub open spec fn errors_view(errors: Seq<SchemaError>) -> Seq<SchemaErrorView> {
    errors.map_values(|e: SchemaError| e@)
}

/// The error reported for a field whose type expression fails with `shape`.
pub open spec fn field_error(
    struct_name: Seq<char>,
    field_name: Seq<char>,
    shape: ShapeError,
) -> SchemaErrorView {
    match shape {
        ShapeError::Unsupported => SchemaErrorView::UnsupportedTypeShape { struct_name, field_name },
        ShapeError::MissingArgument => SchemaErrorView::MissingGenericArgument {
            struct_name,
            field_name,
        },
    }
}

/// The report of an error: the parser's reason for a parse failure, and for a
/// field the names of the field and of its struct with the rule that its type
/// breaks.
pub open spec fn message_text(error: SchemaErrorView) -> Seq<char> {
    match error {
        SchemaErrorView::Parse { reason } => "cannot parse the source: "@ + reason,
        SchemaErrorView::UnsupportedTypeShape { struct_name, field_name } => "field `"@
            + field_name + "` of struct `"@ + struct_name
            + "`: the type is neither a plain name nor `Vec` of one type"@,
        SchemaErrorView::MissingGenericArgument { struct_name, field_name } => "field `"@
            + field_name + "` of struct `"@ + struct_name
            + "`: `Vec` is written without the type it contains"@,
    }
}

impl SchemaError {
    /// The report of the error, as text.
    pub fn message(&self) -> (text: String)
        ensures
            text@ == message_text(self@),
    {
        match self {
            SchemaError::Parse { reason } => {
                let mut text = String::from_str("cannot parse the source: ");
                text.append(reason.as_str());
                text
            },
            SchemaError::UnsupportedTypeShape { struct_name, field_name } => {
                let mut text = String::from_str("field `");
                text.append(field_name.as_str());
                text.append("` of struct `");
                text.append(struct_name.as_str());
                text.append("`: the type is neither a plain name nor `Vec` of one type");
                text
            },
            SchemaError::MissingGenericArgument { struct_name, field_name } => {
                let mut text = String::from_str("field `");
                text.append(field_name.as_str());
                text.append("` of struct `");
                text.append(struct_name.as_str());
                text.append("`: `Vec` is written without the type it contains");
                text
            },
        }
    }

    /// Builds the error for a field whose type expression fails with `shape`.
    pub fn for_field(struct_name: &String, field_name: &String, shape: ShapeError) -> (e: Self)
        ensures
            e@ == field_error(struct_name@, field_name@, shape),
    {
        match shape {
            ShapeError::Unsupported => SchemaError::UnsupportedTypeShape {
                struct_name: struct_name.clone(),
                field_name: field_name.clone(),
            },
            ShapeError::MissingArgument => SchemaError::MissingGenericArgument {
                struct_name: struct_name.clone(),
                field_name: field_name.clone(),
            },
        }
    }
}

} // verus!
