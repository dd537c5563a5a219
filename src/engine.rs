use vstd::prelude::*;

verus! {

/// The script engine, with whatever functions the caller registered on it.
#[verifier::external_type_specification]
#[verifier::external_body]
pub struct ExEngine(rhai::Engine);

/// A compiled program.
#[verifier::external_type_specification]
#[verifier::external_body]
pub struct ExAst(rhai::AST);

/// The variable scope that programs run against.
#[verifier::external_type_specification]
#[verifier::external_body]
pub struct ExScope<'a>(rhai::Scope<'a>);

/// What a failed compile reports.
#[verifier::external_type_specification]
#[verifier::external_body]
pub struct ExParseError(rhai::ParseError);

/// What a failed run reports.
#[verifier::external_type_specification]
#[verifier::external_body]
pub struct ExEvalAltResult(rhai::EvalAltResult);

} // verus!

verus! {

/// The string bindings of a scope: each name whose latest binding holds a
/// string, mapped to that string.
pub uninterp spec fn scope_strings(s: rhai::Scope<'static>) -> Map<Seq<char>, Seq<char>>;

/// The string bindings of a scope with no variables.
pub open spec fn no_strings() -> Map<Seq<char>, Seq<char>> {
    Map::empty()
}

/// A value that a program emitted.
#[verifier::external_type_specification]
#[verifier::external_body]
pub struct ExDynamic(rhai::Dynamic);

/// Relies on rhai::Engine::compile: parses the source into a program, or
/// reports why it cannot. Whether it succeeds is left open here.
#[verifier::external_body]
pub(crate) fn compile_source(engine: &rhai::Engine, source: &str) -> (r: Result<rhai::AST, rhai::ParseError>) {
    engine.compile(source)
}

/// Relies on rhai::Engine::run_ast_with_scope: runs a program against the
/// scope, which it may change. Whether it succeeds is left open here.
#[verifier::external_body]
pub(crate) fn run_with_scope(
    engine: &rhai::Engine,
    scope: &mut rhai::Scope<'static>,
    ast: &rhai::AST,
) -> (r: Result<(), Box<rhai::EvalAltResult>>) {
    engine.run_ast_with_scope(scope, ast)
}

/// Relies on rhai::Scope::new: a scope with no variables.
#[verifier::external_body]
pub(crate) fn empty_scope() -> (r: rhai::Scope<'static>)
    ensures
        scope_strings(r) == no_strings(),
{
    rhai::Scope::new()
}

/// Relies on rhai::Scope::set_or_push: binds the name to the string, in place
/// of a writable binding of that name or as a new one; either way the latest
/// binding of the name then holds the string, and no other binding changes.
#[verifier::external_body]
pub(crate) fn set_variable(scope: &mut rhai::Scope<'static>, name: &str, value: String)
    ensures
        scope_strings(*final(scope)) == scope_strings(*old(scope)).insert(name@, value@),
{
    scope.set_or_push(name, value);
}

/// Relies on the `Display` impl of rhai::Dynamic: the value's text form.
#[verifier::external_body]
pub(crate) fn value_text(value: &rhai::Dynamic) -> (r: String) {
    value.to_string()
}

} // verus!

verus! {

/// Relies on rhai::Scope::get_value: the value of the latest binding of the
/// name, if there is one.
#[verifier::external_body]
pub(crate) fn lookup_variable(scope: &rhai::Scope<'static>, name: &str) -> (r: Option<rhai::Dynamic>)
    ensures
        scope_strings(*scope).contains_key(name@) ==> r is Some,
{
    scope.get_value::<rhai::Dynamic>(name)
}

} // verus!
