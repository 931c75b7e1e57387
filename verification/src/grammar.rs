//! The grammar handle and its accessor.
//!
//! A compiled grammar lives outside this crate, owned for the whole process
//! by its provider. Callers never see inside it: they hold an opaque handle
//! and may only ask which grammar it describes. The accessor that hands the
//! handle out is total, reads only the provider, and returns the same handle
//! on every call.

use vstd::prelude::*;

verus! {

/// Opaque, immutable descriptor of a compiled grammar.
///
/// A handle carries nothing but the identity of the grammar it describes;
/// it is a capability token, created only from a provider and passed by
/// value to whatever consumes the grammar. Two handles are equal exactly
/// when they describe the same grammar.
#[derive(Clone, Copy, PartialEq, Eq, Structural, Debug)]
pub struct GrammarHandle {
    id: u64,
}

impl View for GrammarHandle {
    type V = int;

    closed spec fn view(&self) -> int {
        self.id as int
    }
}

impl GrammarHandle {
    /// The identity of the grammar this handle describes, for callers that
    /// report or compare grammar identities.
    pub fn grammar_id(&self) -> (id: u64)
        ensures
            id as int == self@,
    {
        self.id
    }
}

/// The provider of one compiled grammar: the unit, outside this crate, that
/// constructed the grammar once and owns it for the rest of the process.
///
/// The only thing the library reads of it is the identity of the grammar it
/// constructed; unverified glue builds the value once from the process's
/// foreign grammar symbol. A provider is never mutated: no method takes it
/// by `&mut`, so the grammar it stands for cannot change after construction.
pub struct GrammarProvider {
    grammar_id: u64,
}

impl View for GrammarProvider {
    type V = int;

    closed spec fn view(&self) -> int {
        self.grammar_id as int
    }
}

impl GrammarProvider {
    /// Record the provider of the process's grammar, given that grammar's
    /// identity. Done once, at startup, by the glue that resolved the
    /// foreign symbol; if the symbol is absent the process never got this
    /// far, so no failure is representable here.
    pub fn new(grammar_id: u64) -> (p: GrammarProvider)
        ensures
            p@ == grammar_id as int,
    {
        GrammarProvider { grammar_id }
    }
}

/// The accessor: a handle to the provider's grammar.
///
/// Total and side-effect-free: it takes the provider by shared borrow,
/// mutates nothing, and cannot fail. The handle it returns describes
/// exactly the provider's grammar, so every call on one provider returns
/// the same handle.
pub fn language(provider: &GrammarProvider) -> (h: GrammarHandle)
    ensures
        h@ == provider@,
{
    GrammarHandle { id: provider.grammar_id }
}

/// The accessor is idempotent: any two handles it returned for one
/// provider are one and the same handle, describing the identical grammar.
pub proof fn lemma_language_idempotent(p: &GrammarProvider, h1: GrammarHandle, h2: GrammarHandle)
    requires
        h1@ == p@,
        h2@ == p@,
    ensures
        h1 == h2,
{
}

/// The accessor is a pure function of the provider alone: providers that
/// stand for the same grammar yield equal handles. No hidden or global
/// state influences the result, and none is changed by obtaining it.
pub proof fn lemma_language_pure(
    p1: &GrammarProvider,
    p2: &GrammarProvider,
    h1: GrammarHandle,
    h2: GrammarHandle,
)
    requires
        p1@ == p2@,
        h1@ == p1@,
        h2@ == p2@,
    ensures
        h1 == h2,
{
}

} // verus!
