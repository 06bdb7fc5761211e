//! The declaration model: parsed capability contracts (chainlinks),
//! entities (chains), import lists and manual implementation blocks,
//! together with their specification-level views.
//!
//! Each executable type holds plain text: names and identifiers as
//! `String`, and opaque regions (types, expressions, whole function
//! items) as the raw text captured from the declaration. The `*V`
//! types are the mathematical views, over `Seq<char>`, that every
//! contract in this crate speaks of; `DeepView` connects the two.

use vstd::prelude::*;

verus! {

// ---------------------------------------------------------------------------
// Diagnostics
// ---------------------------------------------------------------------------

/// The kind of a diagnostic raised while parsing or synthesizing.
#[derive(Debug, Clone, Copy, PartialEq, Eq, Structural)]
pub enum ErrorKind {
    /// A malformed declaration: an unexpected character or an early end.
    Syntax,
    /// A contract-tagged or mutable/static field with explicit visibility.
    Visibility,
    /// A contract operation that supplies a default body.
    DefaultBody,
}

/// A diagnostic, pointing at the character offset of the offending text.
#[derive(Debug, Clone, Copy, PartialEq, Eq, Structural)]
pub struct ParseError {
    /// What went wrong.
    pub kind: ErrorKind,
    /// Character offset into the declaration source where it went wrong.
    pub pos: usize,
}

/// View of [`ParseError`]: the same data over unbounded integers.
pub struct ParseErrorV {
    pub kind: ErrorKind,
    pub pos: int,
}

impl DeepView for ParseError {
    type V = ParseErrorV;

    open spec fn deep_view(&self) -> ParseErrorV {
        ParseErrorV { kind: self.kind, pos: self.pos as int }
    }
}

// ---------------------------------------------------------------------------
// Paths and visibility
// ---------------------------------------------------------------------------

/// A reference to a contract (or any item) by path: `::`-separated
/// segments, the last optionally followed by generic arguments, which
/// are kept as raw text including the angle brackets (`"<'a, T>"`).
#[derive(Debug, PartialEq, Eq)]
pub struct ChainPath {
    /// The identifier segments, in order; never empty for a parsed path.
    pub segments: Vec<String>,
    /// Raw generic-argument text attached to the last segment, or empty.
    pub args: String,
}

impl Clone for ChainPath {
    /// A copy with the same view.
    fn clone(&self) -> (res: Self)
        ensures
            res.deep_view() == self.deep_view(),
    {
        let segments = self.segments.clone();
        proof {
            assert forall|k: int| 0 <= k < self.segments@.len() implies segments@[k]
                == self.segments@[k] by {
                assert(vstd::pervasive::cloned::<String>(self.segments@[k], segments@[k]));
            }
            assert(segments@ =~= self.segments@);
            assert(segments.deep_view() =~= self.segments.deep_view());
        }
        ChainPath { segments, args: self.args.clone() }
    }
}

/// View of [`ChainPath`].
pub struct ChainPathV {
    pub segments: Seq<Seq<char>>,
    pub args: Seq<char>,
}

impl DeepView for ChainPath {
    type V = ChainPathV;

    open spec fn deep_view(&self) -> ChainPathV {
        ChainPathV { segments: self.segments.deep_view(), args: self.args.deep_view() }
    }
}

/// A path is well formed when it has at least one segment; the parser
/// only ever produces such paths, and the synthesizers expect them.
pub open spec fn wf_path(p: ChainPathV) -> bool {
    p.segments.len() > 0
}

/// All tag paths of a field list are well formed.
pub open spec fn wf_fields(fs: Seq<ChainFieldV>) -> bool {
    forall|k: int, t: int|
        0 <= k < fs.len() && 0 <= t < fs[k].parents.len() ==> wf_path(#[trigger] fs[k].parents[t])
}

/// All parent paths of a contract are well formed.
pub open spec fn wf_chainlink(c: ChainlinkV) -> bool {
    forall|t: int| 0 <= t < c.parents.len() ==> wf_path(#[trigger] c.parents[t])
}

/// All tag paths of an entity are well formed.
pub open spec fn wf_chain(e: ChainV) -> bool {
    wf_fields(e.fields)
}

/// All paths of an import list are well formed.
pub open spec fn wf_use_chains(u: UseChainsV) -> bool {
    forall|t: int| 0 <= t < u.paths.len() ==> wf_path(#[trigger] u.paths[t])
}

/// All contract paths of a manual-binding block are well formed.
pub open spec fn wf_impl_chains(ic: ImplChainsV) -> bool {
    forall|t: int| 0 <= t < ic.impls.len() ==> wf_path(#[trigger] ic.impls[t].chain)
}

/// The declared visibility of an entity field. Contract-backed storage
/// must have inherited visibility, so an explicit marker is kept with
/// the offset where it starts, for diagnostics.
#[derive(Debug, Clone, PartialEq, Eq)]
pub enum Visibility {
    /// No visibility marker: the field is private to its record.
    Inherited,
    /// An explicit marker such as `pub` or `pub(crate)`, with its offset.
    Explicit(String, usize),
}

/// View of [`Visibility`].
pub enum VisibilityV {
    Inherited,
    Explicit { text: Seq<char>, at: int },
}

impl DeepView for Visibility {
    type V = VisibilityV;

    open spec fn deep_view(&self) -> VisibilityV {
        match self {
            Visibility::Inherited => VisibilityV::Inherited,
            Visibility::Explicit(text, at) => VisibilityV::Explicit {
                text: text.deep_view(),
                at: *at as int,
            },
        }
    }
}

// ---------------------------------------------------------------------------
// Contracts (chainlinks)
// ---------------------------------------------------------------------------

/// One abstract member of a capability contract.
#[derive(Debug, Clone, PartialEq, Eq)]
pub enum ChainlinkField {
    /// `const name: type` — a read-only accessor returning `&type`.
    Const(String, String),
    /// `mut name: type` — a read-write accessor returning `&mut type`.
    Mut(String, String),
    /// `static name: type` — a contract-wide accessor, not tied to an instance.
    Static(String, String),
    /// A free-form operation: the full signature text, without a body.
    Fn(String),
}

/// View of [`ChainlinkField`].
pub enum ChainlinkFieldV {
    Const { name: Seq<char>, ty: Seq<char> },
    Mut { name: Seq<char>, ty: Seq<char> },
    Static { name: Seq<char>, ty: Seq<char> },
    Fn { sig: Seq<char> },
}

impl DeepView for ChainlinkField {
    type V = ChainlinkFieldV;

    open spec fn deep_view(&self) -> ChainlinkFieldV {
        match self {
            ChainlinkField::Const(name, ty) => ChainlinkFieldV::Const {
                name: name.deep_view(),
                ty: ty.deep_view(),
            },
            ChainlinkField::Mut(name, ty) => ChainlinkFieldV::Mut {
                name: name.deep_view(),
                ty: ty.deep_view(),
            },
            ChainlinkField::Static(name, ty) => ChainlinkFieldV::Static {
                name: name.deep_view(),
                ty: ty.deep_view(),
            },
            ChainlinkField::Fn(sig) => ChainlinkFieldV::Fn { sig: sig.deep_view() },
        }
    }
}

/// A parsed capability contract: `name [<generics>] [: parent (+ parent)*]
/// => { member (';' member)* }`.
#[derive(Debug, Clone, PartialEq, Eq)]
pub struct Chainlink {
    /// The declared contract name, without the `Chainlink` suffix.
    pub name: String,
    /// Raw generic-parameter texts, in declaration order.
    pub generics: Vec<String>,
    /// Parent contracts this contract extends, in declaration order.
    pub parents: Vec<ChainPath>,
    /// The abstract members, in declaration order.
    pub fields: Vec<ChainlinkField>,
}

/// View of [`Chainlink`].
pub struct ChainlinkV {
    pub name: Seq<char>,
    pub generics: Seq<Seq<char>>,
    pub parents: Seq<ChainPathV>,
    pub fields: Seq<ChainlinkFieldV>,
}

impl DeepView for Chainlink {
    type V = ChainlinkV;

    open spec fn deep_view(&self) -> ChainlinkV {
        ChainlinkV {
            name: self.name.deep_view(),
            generics: self.generics.deep_view(),
            parents: self.parents.deep_view(),
            fields: self.fields.deep_view(),
        }
    }
}

// ---------------------------------------------------------------------------
// Entities (chains)
// ---------------------------------------------------------------------------

/// The data of one entity field, without its contract tags.
#[derive(Debug, Clone, PartialEq, Eq)]
pub enum ChainFieldData {
    /// `[vis] const name: type` — stored; backs read-only accessors.
    Const(Visibility, String, String),
    /// `mut name: type` — stored; backs read-write accessors.
    Mut(String, String),
    /// `static name: type = expr` — no storage; backs static accessors.
    Static(String, String, String),
}

/// View of [`ChainFieldData`].
pub enum ChainFieldDataV {
    Const { vis: VisibilityV, name: Seq<char>, ty: Seq<char> },
    Mut { name: Seq<char>, ty: Seq<char> },
    Static { name: Seq<char>, ty: Seq<char>, expr: Seq<char> },
}

impl DeepView for ChainFieldData {
    type V = ChainFieldDataV;

    open spec fn deep_view(&self) -> ChainFieldDataV {
        match self {
            ChainFieldData::Const(vis, name, ty) => ChainFieldDataV::Const {
                vis: vis.deep_view(),
                name: name.deep_view(),
                ty: ty.deep_view(),
            },
            ChainFieldData::Mut(name, ty) => ChainFieldDataV::Mut {
                name: name.deep_view(),
                ty: ty.deep_view(),
            },
            ChainFieldData::Static(name, ty, expr) => ChainFieldDataV::Static {
                name: name.deep_view(),
                ty: ty.deep_view(),
                expr: expr.deep_view(),
            },
        }
    }
}

/// One entity field: its contract tags and its data.
#[derive(Debug, Clone, PartialEq, Eq)]
pub struct ChainField {
    /// The contracts this field participates in (`@path` tags), in order.
    pub parents: Vec<ChainPath>,
    /// The field itself.
    pub field: ChainFieldData,
}

/// View of [`ChainField`].
pub struct ChainFieldV {
    pub parents: Seq<ChainPathV>,
    pub field: ChainFieldDataV,
}

impl DeepView for ChainField {
    type V = ChainFieldV;

    open spec fn deep_view(&self) -> ChainFieldV {
        ChainFieldV { parents: self.parents.deep_view(), field: self.field.deep_view() }
    }
}

/// A parsed entity: `name [<generics>] => { field (';' field)* }`.
#[derive(Debug, Clone, PartialEq, Eq)]
pub struct Chain {
    /// The declared entity name.
    pub name: String,
    /// Raw generic-parameter texts, in declaration order.
    pub generics: Vec<String>,
    /// The fields, in declaration order.
    pub fields: Vec<ChainField>,
}

/// View of [`Chain`].
pub struct ChainV {
    pub name: Seq<char>,
    pub generics: Seq<Seq<char>>,
    pub fields: Seq<ChainFieldV>,
}

impl DeepView for Chain {
    type V = ChainV;

    open spec fn deep_view(&self) -> ChainV {
        ChainV {
            name: self.name.deep_view(),
            generics: self.generics.deep_view(),
            fields: self.fields.deep_view(),
        }
    }
}

// ---------------------------------------------------------------------------
// Import lists and manual implementation blocks
// ---------------------------------------------------------------------------

/// A parsed import list: contract paths separated by commas.
#[derive(Debug, Clone, PartialEq, Eq)]
pub struct UseChains(pub Vec<ChainPath>);

/// View of [`UseChains`].
pub struct UseChainsV {
    pub paths: Seq<ChainPathV>,
}

impl DeepView for UseChains {
    type V = UseChainsV;

    open spec fn deep_view(&self) -> UseChainsV {
        UseChainsV { paths: self.0.deep_view() }
    }
}

/// One manually supplied implementation: a fully bodied function and
/// the contract it belongs to.
#[derive(Debug, Clone, PartialEq, Eq)]
pub struct ImplChain {
    /// The complete function item text, body included, passed through verbatim.
    pub func: String,
    /// The contract the function implements (`in path`).
    pub chain: ChainPath,
}

/// View of [`ImplChain`].
pub struct ImplChainV {
    pub func: Seq<char>,
    pub chain: ChainPathV,
}

impl DeepView for ImplChain {
    type V = ImplChainV;

    open spec fn deep_view(&self) -> ImplChainV {
        ImplChainV { func: self.func.deep_view(), chain: self.chain.deep_view() }
    }
}

/// A parsed manual-binding block: `type => { fn ... in path; ... } [where <constraints>]`.
#[derive(Debug, Clone, PartialEq, Eq)]
pub struct ImplChains {
    /// Raw text of the target type.
    pub ty: String,
    /// The supplied implementations, in declaration order.
    pub impls: Vec<ImplChain>,
    /// Raw text of an optional constraint clause, including its angle brackets.
    pub where_clause: Option<String>,
}

/// View of [`ImplChains`].
pub struct ImplChainsV {
    pub ty: Seq<char>,
    pub impls: Seq<ImplChainV>,
    pub where_clause: Option<Seq<char>>,
}

impl DeepView for ImplChains {
    type V = ImplChainsV;

    open spec fn deep_view(&self) -> ImplChainsV {
        ImplChainsV {
            ty: self.ty.deep_view(),
            impls: self.impls.deep_view(),
            where_clause: self.where_clause.deep_view(),
        }
    }
}

} // verus!
