use vstd::prelude::*;
use crate::ast::{CrateId, FileId, LocalModuleId, MacroError, MacroResult, ParsedProgram, SortedModule};

verus! {

/// The declarations spliced into the standard library: an oracle whose
/// behaviour is supplied when the program is executed, and a wrapper that
/// consults it with its input exactly when the condition is false.
pub const ASSERT_MESSAGE_ORACLES: &'static str = "
    #[oracle(assert_message)]
    unconstrained fn assert_message_oracle<T>(_input: T) {}
    unconstrained pub fn resolve_assert_message<T>(input: T, condition: bool) {
        if !condition {
            assert_message_oracle(input);
        }
    }";

/// The function list that the untyped-AST phase leaves in a module of the
/// crate `crate_id`, given the functions parsed from the embedded fragment.
pub open spec fn functions_after_untyped_ast<F>(
    functions: Seq<F>,
    crate_id: CrateId,
    fragment: Seq<F>,
) -> Seq<F> {
    if crate_id.is_stdlib() {
        functions + fragment
    } else {
        functions
    }
}

/// Whether `fragment` is a clean parse that the untyped-AST phase may splice in.
pub open spec fn is_clean_parse<F, D, E>(fragment: Option<ParsedProgram<F, D, E>>) -> bool {
    fragment is Some && fragment->Some_0.errors@.len() == 0
}

/// The functions of a parsed fragment, or none where nothing was parsed.
pub open spec fn parsed_functions<F, D, E>(fragment: Option<ParsedProgram<F, D, E>>) -> Seq<F> {
    match fragment {
        Some(p) => p.module.functions@,
        None => Seq::empty(),
    }
}

/// The processor that gives the standard-library crate the functions behind
/// assert messages. It leaves every other crate untouched, and has nothing to
/// do in the prelude and typed-AST phases.
///
/// It does not parse on its own: `fragment_to_parse` names the text that the
/// host's snippet parser must turn into a module for a given crate, and
/// `process_untyped_ast` takes what the parser returned.
pub struct AssertMessageMacro;

impl AssertMessageMacro {
    /// The source text to parse before the untyped-AST phase of `crate_id`:
    /// the embedded fragment for the standard library, nothing for any other crate.
    pub fn fragment_to_parse(&self, crate_id: &CrateId) -> (r: Option<&'static str>)
        ensures
            crate_id.is_stdlib() ==> r == Some(ASSERT_MESSAGE_ORACLES),
            !crate_id.is_stdlib() ==> r is None,
    {
        if crate_id.is_stdlib() {
            Some(ASSERT_MESSAGE_ORACLES)
        } else {
            None
        }
    }

    /// Runs before name resolution. A crate other than the standard library
    /// gets its module back as it was. The standard library gets the functions
    /// of the parsed fragment appended to its own, in order, with nothing else
    /// changed. The fragment must have parsed without a diagnostic: anything
    /// else is a defect of the compiler, not of the program compiled.
    pub fn process_untyped_ast<F, D, D2, E, C>(
        &self,
        ast: SortedModule<F, D>,
        crate_id: &CrateId,
        _context: &C,
        fragment: Option<ParsedProgram<F, D2, E>>,
    ) -> (r: MacroResult<SortedModule<F, D>>)
        requires
            crate_id.is_stdlib() ==> is_clean_parse(fragment),
        ensures
            r is Ok,
            !crate_id.is_stdlib() ==> r == Ok::<SortedModule<F, D>, (MacroError, FileId)>(ast),
            r->Ok_0.functions@ == functions_after_untyped_ast(
                ast.functions@,
                *crate_id,
                parsed_functions(fragment),
            ),
            r->Ok_0.declarations == ast.declarations,
    {
        transform(ast, crate_id, fragment)
    }

    /// Runs once per crate before imports are resolved; contributes no import.
    pub fn process_crate_prelude<C, I>(
        &self,
        _crate_id: &CrateId,
        _context: &C,
        collected_imports: &mut Vec<I>,
        _submodules: &[LocalModuleId],
    ) -> (r: MacroResult<()>)
        ensures
            r is Ok,
            final(collected_imports)@ == old(collected_imports)@,
    {
        Ok(())
    }

    /// Runs after resolution and type checking; this processor needs nothing
    /// from that point, and leaves the context as it found it.
    pub fn process_typed_ast<C>(&self, _crate_id: &CrateId, context: &mut C) -> (r: MacroResult<()>)
        ensures
            r is Ok,
            *final(context) == *old(context),
    {
        Ok(())
    }
}

fn transform<F, D, D2, E>(
    ast: SortedModule<F, D>,
    crate_id: &CrateId,
    fragment: Option<ParsedProgram<F, D2, E>>,
) -> (r: MacroResult<SortedModule<F, D>>)
    requires
        crate_id.is_stdlib() ==> is_clean_parse(fragment),
    ensures
        r is Ok,
        !crate_id.is_stdlib() ==> r == Ok::<SortedModule<F, D>, (MacroError, FileId)>(ast),
        r->Ok_0.functions@ == functions_after_untyped_ast(
            ast.functions@,
            *crate_id,
            parsed_functions(fragment),
        ),
        r->Ok_0.declarations == ast.declarations,
{
    let ast = add_resolve_assert_message_funcs(ast, crate_id, fragment)?;
    Ok(ast)
}

fn add_resolve_assert_message_funcs<F, D, D2, E>(
    ast: SortedModule<F, D>,
    crate_id: &CrateId,
    fragment: Option<ParsedProgram<F, D2, E>>,
) -> (r: MacroResult<SortedModule<F, D>>)
    requires
        crate_id.is_stdlib() ==> is_clean_parse(fragment),
    ensures
        r is Ok,
        !crate_id.is_stdlib() ==> r == Ok::<SortedModule<F, D>, (MacroError, FileId)>(ast),
        r->Ok_0.functions@ == functions_after_untyped_ast(
            ast.functions@,
            *crate_id,
            parsed_functions(fragment),
        ),
        r->Ok_0.declarations == ast.declarations,
{
    if !crate_id.is_stdlib() {
        return Ok(ast);
    }
    let mut ast = ast;
    match fragment {
        Some(parsed) => {
            let mut assert_msg_funcs = parsed.module.functions;
            ast.functions.append(&mut assert_msg_funcs);
            Ok(ast)
        },
        None => Ok(ast),
    }
}

/// The untyped-AST phase only ever appends: every function of the module
/// keeps its place, and the parsed fragment follows the last of them.
pub proof fn lemma_untyped_ast_appends<F>(functions: Seq<F>, crate_id: CrateId, fragment: Seq<F>)
    ensures
        functions_after_untyped_ast(functions, crate_id, fragment).len() == functions.len() + (
        if crate_id.is_stdlib() {
            fragment.len()
        } else {
            0
        }),
        forall|i: int|
            0 <= i < functions.len() ==> functions_after_untyped_ast(functions, crate_id, fragment)[i]
                == functions[i],
{
}

/// The untyped-AST phase is not idempotent: run twice over the standard
/// library's module, it leaves the fragment's functions in it twice over.
/// The host owes each crate exactly one run of it.
pub proof fn lemma_untyped_ast_twice_duplicates<F>(functions: Seq<F>, crate_id: CrateId, fragment: Seq<F>)
    requires
        crate_id.is_stdlib(),
        fragment.len() > 0,
    ensures
        functions_after_untyped_ast(
            functions_after_untyped_ast(functions, crate_id, fragment),
            crate_id,
            fragment,
        ) == functions + fragment + fragment,
        functions_after_untyped_ast(
            functions_after_untyped_ast(functions, crate_id, fragment),
            crate_id,
            fragment,
        ).len() == functions.len() + 2 * fragment.len(),
        functions_after_untyped_ast(
            functions_after_untyped_ast(functions, crate_id, fragment),
            crate_id,
            fragment,
        ) != functions_after_untyped_ast(functions, crate_id, fragment),
{
    let once = functions_after_untyped_ast(functions, crate_id, fragment);
    let twice = functions_after_untyped_ast(once, crate_id, fragment);
    assert(twice.len() != once.len());
}

} // verus!
