//! Schemas of record declarations: extracted from a parsed compilation unit
//! and rendered back as source text that rebuilds them.
//!
//! * [`def`] holds the schema: [`Type`], [`StructField`], [`StructDef`].
//! * [`syntax`] is a plain model of what is read from a compilation unit.
//! * [`resolve`] turns a type expression into a [`Type`], and [`extract`] the
//!   items of a compilation unit into struct definitions or errors.
//! * [`source`] reads the syntax tree of the parser into the model.
//! * [`gen`] renders struct definitions as constructor text, and [`read`]
//!   proves that the text rebuilds them; [`scope`] is the builder that lays the
//!   routines out.
//!
//! Every function is verified against the contract it states. What is taken
//! on trust are the one-step statements about the parser and the builder in
//! [`source`], [`scope`] and [`text`].

pub mod def;
pub mod error;
pub mod extract;
pub mod gen;
pub mod read;
pub mod resolve;
pub mod scope;
pub mod source;
pub mod syntax;
pub mod text;

pub use def::{StructDef, StructDefView, StructField, StructFieldView, Type, TypeView};
pub use error::{SchemaError, SchemaErrorView, ShapeError};
pub use extract::{extract, extract_struct};
pub use gen::{
    format_text, generate, generate_format, generate_from_struct_defs, generate_scope,
    generate_scope_from_struct_defs, generate_string_from_struct_def, generate_type_from_field_ty,
};
pub use resolve::resolve;
pub use source::{
    extract_parsed, get_struct_def, get_struct_defs, get_struct_defs_from_file, read_file,
    read_struct,
};
