use vstd::prelude::*;

verus! {

/// A lexical module scope, as handed out by the module graph.
#[derive(Clone, Copy, PartialEq, Eq, Structural, Hash, Debug)]
pub struct ModuleId {
    pub krate: usize,
    pub local_id: usize,
}

/// Handle of a function in the definition table.
#[derive(Clone, Copy, PartialEq, Eq, Structural, Hash, Debug)]
pub struct FuncId(pub usize);

/// Handle of a struct in the definition table.
#[derive(Clone, Copy, PartialEq, Eq, Structural, Hash, Debug)]
pub struct StructId(pub usize);

/// Handle of a trait in the definition table.
#[derive(Clone, Copy, PartialEq, Eq, Structural, Hash, Debug)]
pub struct TraitId(pub usize);

/// Handle of a type alias in the definition table.
#[derive(Clone, Copy, PartialEq, Eq, Structural, Hash, Debug)]
pub struct TypeAliasId(pub usize);

/// A range of source offsets, `start` inclusive and `end` exclusive.
#[derive(Clone, Copy, PartialEq, Eq, Structural, Hash, Debug)]
pub struct Span {
    pub start: u32,
    pub end: u32,
}

impl Span {
    /// A span that covers no source text marks a name that the compiler made up.
    pub open spec fn spec_is_empty(self) -> bool {
        !(self.start < self.end)
    }

    #[verifier::when_used_as_spec(spec_is_empty)]
    pub fn is_empty(self) -> (r: bool)
        ensures
            r == self.spec_is_empty(),
    {
        !(self.start < self.end)
    }
}

/// An identifier as written in the source: its text and where it stands.
///
/// Two identifiers name the same thing when their text agrees; the span only
/// tells where a diagnostic should point.
#[derive(Clone, Debug)]
pub struct Ident {
    pub contents: String,
    pub span: Span,
}

impl Ident {
    pub fn new(contents: String, span: Span) -> (r: Ident)
        ensures
            r.contents@ == contents@,
            r.span == span,
    {
        Ident { contents, span }
    }

    pub fn span(&self) -> (r: Span)
        ensures
            r == self.span,
    {
        self.span
    }
}

/// The visibility a declaration was written with.
#[derive(Clone, Copy, PartialEq, Eq, Structural, Hash, Debug)]
pub enum ItemVisibility {
    Public,
    PublicCrate,
    Private,
}

} // verus!
