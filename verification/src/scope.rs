//! The scope builder of `codegen`, as far as the emitter uses it: a scope
//! that holds imports and functions, and its formatted text.
//!
//! Nothing is proved of that crate. The functions marked `external_body` below
//! state what each of its calls does to the imports and functions of a scope.

use vstd::prelude::*;

verus! {

/// `codegen::Scope`: a scope under construction, read only through the
/// functions below.
#[verifier::external_type_specification]
#[verifier::external_body]
pub struct ExScope(codegen::Scope);

/// `codegen::Function`: a function under construction, read only through the
/// functions below.
#[verifier::external_type_specification]
#[verifier::external_body]
pub struct ExFunction(codegen::Function);

/// A function made of a name and the lines of its body.
pub struct FunctionView {
    pub name: Seq<char>,
    pub lines: Seq<Seq<char>>,
}

/// A scope made of imports, each a path and a type name, and of functions.
pub struct ScopeView {
    pub imports: Seq<(Seq<char>, Seq<char>)>,
    pub functions: Seq<FunctionView>,
}

/// What a function of the builder holds, where it holds a name and body lines
/// and is otherwise as `Function::new` made it; `None` for any other function.
pub uninterp spec fn function_view(function: codegen::Function) -> Option<FunctionView>;

/// What a scope of the builder holds, where it holds nothing but imports
/// without visibility and functions that have a view, in the order in which
/// they are formatted; `None` for any other scope.
pub uninterp spec fn scope_view(scope: codegen::Scope) -> Option<ScopeView>;

/// The text that `Scope::to_string` gives for a scope with this view.
pub uninterp spec fn scope_text(scope: ScopeView) -> Seq<char>;

/// `codegen::Scope::new`: a scope without imports and without items.
#[verifier::external_body]
pub(crate) fn scope_new() -> (scope: codegen::Scope)
    ensures
        scope_view(scope) == Some(
            ScopeView { imports: Seq::empty(), functions: Seq::empty() },
        ),
{
    codegen::Scope::new()
}

/// `codegen::Scope::import`, for a scope without imports and a type name
/// without a colon: the scope then holds this one import, and its items are as
/// before. (The call keeps of a type name what stands before the first `::`,
/// and adds nothing for an import that is there already.)
#[verifier::external_body]
pub(crate) fn scope_import(scope: &mut codegen::Scope, path: &str, ty: &str)
    requires
        scope_view(*old(scope)) matches Some(before) && before.imports.len() == 0,
        forall|i: int| 0 <= i < ty@.len() ==> ty@[i] != ':',
    ensures
        scope_view(*final(scope)) == Some(
            ScopeView {
                imports: seq![(path@, ty@)],
                functions: scope_view(*old(scope))->0.functions,
            },
        ),
{
    scope.import(path, ty);
}

/// `codegen::Function::new`: a function with the name and an empty body.
#[verifier::external_body]
pub(crate) fn function_new(name: &str) -> (function: codegen::Function)
    ensures
        function_view(function) == Some(FunctionView { name: name@, lines: Seq::empty() }),
{
    codegen::Function::new(name)
}

/// `codegen::Function::line`: adds the line at the end of the body.
#[verifier::external_body]
pub(crate) fn function_line(function: &mut codegen::Function, line: String)
    requires
        function_view(*old(function)) is Some,
    ensures
        function_view(*final(function)) == Some(
            FunctionView {
                name: function_view(*old(function))->0.name,
                lines: function_view(*old(function))->0.lines.push(line@),
            },
        ),
{
    function.line(line);
}

/// `codegen::Scope::push_fn`: adds the function after the items of the scope.
#[verifier::external_body]
pub(crate) fn scope_push_fn(scope: &mut codegen::Scope, function: codegen::Function)
    requires
        scope_view(*old(scope)) is Some,
        function_view(function) is Some,
    ensures
        scope_view(*final(scope)) == Some(
            ScopeView {
                imports: scope_view(*old(scope))->0.imports,
                functions: scope_view(*old(scope))->0.functions.push(function_view(function)->0),
            },
        ),
{
    scope.push_fn(function);
}

/// `codegen::Scope::to_string`: the formatted text of the scope, a function of
/// what the scope holds; the contract only gives it its name.
#[verifier::external_body]
pub(crate) fn scope_to_string(scope: &codegen::Scope) -> (text: String)
    requires
        scope_view(*scope) is Some,
    ensures
        text@ == scope_text(scope_view(*scope)->0),
{
    scope.to_string()
}

/// `codegen::Formatter::new` on the text and `codegen::Formatter::indent` with
/// a closure that writes nothing: the formatter changes its indentation and
/// changes it back, and the text stays as it is.
#[verifier::external_body]
pub(crate) fn indent_text(text: String) -> (formatted: String)
    ensures
        formatted@ == text@,
{
    let mut text = text;
    let mut formatter = codegen::Formatter::new(&mut text);
    formatter.indent(|_| ());
    text
}

} // verus!
