use vstd::prelude::*;

verus! {

/// Identifies a compilation unit. Which variant a crate gets is decided by the
/// host before any processing starts, and never changes afterwards.
#[derive(Clone, Copy, Debug, PartialEq, Eq, Structural)]
pub enum CrateId {
    Root(usize),
    Crate(usize),
    Stdlib(usize),
    Dummy,
}

impl CrateId {
    pub open spec fn spec_is_stdlib(&self) -> bool {
        self is Stdlib
    }

    /// Whether this is the standard-library crate.
    #[verifier::when_used_as_spec(spec_is_stdlib)]
    pub fn is_stdlib(&self) -> (r: bool)
        ensures
            r == self.spec_is_stdlib(),
    {
        match self {
            CrateId::Stdlib(_) => true,
            _ => false,
        }
    }
}

/// The source file a declaration came from; used only to place an error.
#[derive(Clone, Copy, Debug, PartialEq, Eq, Structural)]
pub struct FileId(pub usize);

/// Names a child module within a crate.
#[derive(Clone, Copy, Debug, PartialEq, Eq, Structural)]
pub struct LocalModuleId(pub usize);

/// A processor-level failure, to be rendered by the host's diagnostics.
#[derive(Clone, Debug)]
pub struct MacroError {
    pub primary_message: String,
    pub secondary_message: Option<String>,
}

/// What a processor hands back from one phase: the phase's output, or an error
/// together with the file it is attributed to.
pub type MacroResult<T> = Result<T, (MacroError, FileId)>;

/// The top-level declarations of one module. The functions are kept in their
/// order of declaration; `declarations` holds the rest of the module (imports,
/// types, globals) in whatever form the host keeps them.
pub struct SortedModule<F, D> {
    pub functions: Vec<F>,
    pub declarations: D,
}

/// What the snippet parser hands back for a piece of source text: the module
/// it built and the diagnostics it raised.
pub struct ParsedProgram<F, D, E> {
    pub module: SortedModule<F, D>,
    pub errors: Vec<E>,
}

} // verus!
