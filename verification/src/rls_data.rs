//! The records of one static-analysis snapshot.
//!
//! These are plain data: one `Analysis` value describes a single compiled
//! crate, with its own definitions and a crate-local numbering for the crates
//! it depends on.  The front end decodes snapshots into these records before
//! the registry ever sees them; file-system paths therefore arrive here as
//! plain strings.

use vstd::prelude::*;

verus! {

#[derive(Debug, Clone, PartialEq)]
pub struct Analysis {
    pub config: Config,
    pub version: String,
    pub compilation: Compilation,
    pub prelude: Prelude,
    pub imports: Vec<Import>,
    pub defs: Vec<Def>,
    pub impls: Vec<Impl>,
    pub refs: Vec<Ref>,
    pub macro_refs: Vec<MacroRef>,
    pub relations: Vec<Relation>,
}

#[derive(Debug, Clone, PartialEq)]
pub struct Config {
    pub output_file: Option<String>,
    pub full_docs: bool,
    pub pub_only: bool,
    pub reachable_only: bool,
    pub distro_crate: bool,
    pub signatures: bool,
    pub borrow_data: bool,
}

#[derive(Debug, Clone, PartialEq)]
pub struct Compilation {
    pub directory: String,
    pub program: String,
    pub arguments: Vec<String>,
    pub output: String,
}

#[derive(Debug, Clone, PartialEq)]
pub struct Prelude {
    pub crate_id: GlobalCrateId,
    pub external_crates: Vec<ExternalCrate>,
    pub span: Span,
}

#[derive(Debug, Clone, PartialEq)]
pub struct ExternalCrate {
    pub file_name: String,
    pub num: u32,
    pub id: GlobalCrateId,
}

/// The build-wide-unique key of one compiled crate.  Two crates may share a
/// name; the disambiguator pair tells them apart, so equality uses the full
/// triple.
#[derive(Debug)]
pub struct GlobalCrateId {
    pub name: String,
    pub disambiguator: (u64, u64),
}

/// The mathematical key of a crate identity: its name's characters together
/// with the disambiguator pair.  Contracts compare identities through this
/// key, so two identities are the same exactly when name and disambiguator
/// agree.
pub open spec fn crate_key(id: GlobalCrateId) -> (Seq<char>, u64, u64) {
    (id.name@, id.disambiguator.0, id.disambiguator.1)
}

impl Clone for GlobalCrateId {
    fn clone(&self) -> (r: Self)
        ensures
            r == *self,
    {
        GlobalCrateId { name: self.name.clone(), disambiguator: self.disambiguator }
    }
}

impl PartialEq for GlobalCrateId {
    fn eq(&self, other: &Self) -> (r: bool) {
        self.name == other.name && self.disambiguator.0 == other.disambiguator.0
            && self.disambiguator.1 == other.disambiguator.1
    }
}

impl vstd::std_specs::cmp::PartialEqSpecImpl for GlobalCrateId {
    open spec fn obeys_eq_spec() -> bool {
        true
    }

    open spec fn eq_spec(&self, other: &Self) -> bool {
        crate_key(*self) == crate_key(*other)
    }
}

#[derive(Debug, Clone, PartialEq)]
pub struct Span {
    pub file_name: String,
    pub byte_start: u32,
    pub byte_end: u32,
    pub line_start: u32,
    pub line_end: u32,
    pub column_start: u32,
    pub column_end: u32,
}

#[derive(Debug, Clone, PartialEq)]
pub struct Import {
    pub kind: ImportKind,
    pub ref_id: Option<Id>,
    pub span: Span,
    pub alias_span: Option<Span>,
    pub name: String,
    pub value: String,
    pub parent: Option<Id>,
}

#[derive(Debug, Clone, PartialEq, Eq)]
pub enum ImportKind {
    ExternCrate,
    Use,
    GlobUse,
}

#[derive(Debug, Clone, PartialEq)]
pub struct Def {
    pub kind: DefKind,
    pub id: Id,
    pub span: Span,
    pub name: String,
    pub qualname: String,
    pub value: String,
    pub parent: Option<Id>,
    pub children: Vec<Id>,
    pub decl_id: Option<Id>,
    pub docs: String,
    pub sig: Option<Signature>,
    pub attributes: Vec<Attribute>,
}

#[derive(Debug, Clone, Copy, PartialEq, Eq)]
pub enum DefKind {
    Enum,
    TupleVariant,
    StructVariant,
    Tuple,
    Struct,
    Union,
    Trait,
    Function,
    ForeignFunction,
    Method,
    Macro,
    Mod,
    Type,
    Local,
    Static,
    ForeignStatic,
    Const,
    Field,
    ExternType,
}

/// A crate-local reference: crate number 0 means "the crate this `Id` was
/// read from"; any other number is an alias that only the owning crate's
/// remap table can interpret.
#[derive(Debug, Clone, Copy, PartialEq, Eq, Structural)]
pub struct Id {
    pub krate: u32,
    pub index: u32,
}

#[derive(Debug, Clone, PartialEq)]
pub struct Signature {
    pub text: String,
    pub defs: Vec<SigElement>,
    pub refs: Vec<SigElement>,
}

#[derive(Debug, Clone, PartialEq)]
pub struct SigElement {
    pub id: Id,
    pub start: usize,
    pub end: usize,
}

#[derive(Debug, Clone, PartialEq)]
pub struct Attribute {
    pub value: String,
    pub span: Span,
}

#[derive(Debug, Clone, PartialEq)]
pub struct Impl {
    pub id: u32,
    pub kind: ImplKind,
    pub span: Span,
    pub value: String,
    pub parent: Option<Id>,
    pub children: Vec<Id>,
    pub docs: String,
    pub sig: Option<Signature>,
    pub attributes: Vec<Attribute>,
}

#[derive(Debug, Clone, PartialEq)]
pub enum ImplKind {
    Inherent,
    Direct,
    Indirect,
    Blanket,
    Deref(String, Id),
}

#[derive(Debug, Clone, PartialEq)]
pub struct Ref {
    pub kind: RefKind,
    pub span: Span,
    pub ref_id: Id,
}

#[derive(Debug, Clone, Copy, PartialEq, Eq)]
pub enum RefKind {
    Function,
    Mod,
    Type,
    Variable,
}

#[derive(Debug, Clone, PartialEq)]
pub struct MacroRef {
    pub span: Span,
    pub qualname: String,
    pub callee_span: Span,
}

#[derive(Debug, Clone, PartialEq)]
pub struct Relation {
    pub span: Span,
    pub kind: Option<RelationKind>,
    pub from: Id,
    pub to: Id,
}

#[derive(Debug, Clone, PartialEq)]
pub enum RelationKind {
    Impl { id: u32 },
    SuperTrait,
}

} // verus!
