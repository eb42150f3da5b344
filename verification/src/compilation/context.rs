//! What stays the same while one schema document is compiled.

use vstd::prelude::*;

verus! {

/// The edition of the schema language that a document is written in.
#[derive(Clone, Copy, Debug, PartialEq, Eq, Structural)]
pub enum Draft {
    Draft4,
    Draft6,
    Draft7,
}

/// The state that every compile call of one document is handed. The keywords
/// pass it on to the schemas inside them as they got it.
#[derive(Clone, Copy, Debug, PartialEq, Eq, Structural)]
pub struct CompilationContext {
    draft: Draft,
}

impl CompilationContext {
    /// The context of a document written in `draft`.
    pub fn new(draft: Draft) -> (context: CompilationContext)
        ensures
            context.spec_draft() == draft,
    {
        CompilationContext { draft }
    }

    /// The edition that the document is written in.
    pub closed spec fn spec_draft(&self) -> Draft {
        self.draft
    }

    /// The edition that the document is written in.
    #[verifier::when_used_as_spec(spec_draft)]
    pub fn draft(&self) -> (draft: Draft)
        ensures
            draft == self.spec_draft(),
    {
        self.draft
    }
}

} // verus!
