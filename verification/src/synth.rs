//! The synthesizers: from parsed declarations to generated source.
//!
//! Naming is the one bit-exact interface of the whole system: the
//! abstract trait backing a contract is the contract's declared name
//! with the literal `Chainlink` suffix appended, and the undecorated
//! name becomes a type alias for the dynamically dispatched trait
//! object. Every emission function is specified down to the exact
//! character sequence it produces, by composition of the rendering
//! specifications below.

use vstd::prelude::*;

use crate::ast::{
    wf_chain, wf_chainlink, wf_fields, wf_impl_chains, wf_path, wf_use_chains, Chain, ChainField,
    ChainFieldData, ChainFieldDataV, ChainFieldV, Chainlink, ChainlinkField, ChainlinkFieldV,
    ChainlinkV, ChainPath, ChainPathV, ChainV, ImplChain, ImplChains, ImplChainsV, ImplChainV,
    UseChains, UseChainsV, Visibility, VisibilityV,
};

verus! {

// ---------------------------------------------------------------------------
// Names and paths
// ---------------------------------------------------------------------------

/// The suffixed interface name: the declared name with `Chainlink`
/// appended.
pub open spec fn suffixed(name: Seq<char>) -> Seq<char> {
    name + "Chainlink"@
}

/// Executable twin of [`suffixed`].
pub fn suffixed_name(name: &String) -> (r: String)
    ensures
        r@ == suffixed(name@),
{
    let mut out = name.clone();
    out.append("Chainlink");
    out
}

/// All segments but the last, each followed by `::`.
pub open spec fn join_lead(segs: Seq<Seq<char>>) -> Seq<char>
    decreases segs.len(),
{
    if segs.len() <= 1 {
        Seq::empty()
    } else {
        segs[0] + "::"@ + join_lead(segs.drop_first())
    }
}

/// The path as written: segments joined by `::`, generic arguments
/// appended to the last.
pub open spec fn plain_path(p: ChainPathV) -> Seq<char> {
    join_lead(p.segments) + p.segments.last() + p.args
}

/// The path with the suffix applied to its last segment, generic
/// arguments kept.
pub open spec fn mangled_path(p: ChainPathV) -> Seq<char> {
    join_lead(p.segments) + suffixed(p.segments.last()) + p.args
}

/// Writes `p`'s leading segments, each followed by `::`, then the last
/// segment (suffixed on demand), then the generic arguments.
fn append_path(out: &mut String, p: &ChainPath, suffix: bool)
    requires
        p.segments@.len() > 0,
    ensures
        final(out)@ == old(out)@ + (if suffix {
            mangled_path(p.deep_view())
        } else {
            plain_path(p.deep_view())
        }),
{
    let ghost base = out@;
    let n = p.segments.len();
    let mut k: usize = 0;
    while k + 1 < n
        invariant
            0 <= k < n,
            n == p.segments@.len(),
            out@ == base + join_lead_first(p.deep_view().segments, k as int),
        decreases n - k,
    {
        out.append(p.segments[k].as_str());
        out.append("::");
        k = k + 1;
        proof {
            lemma_join_lead_first_step(p.deep_view().segments, k as int);
        }
    }
    proof {
        lemma_join_lead_first_full(p.deep_view().segments);
    }
    if suffix {
        let last = suffixed_name(&p.segments[n - 1]);
        out.append(last.as_str());
    } else {
        out.append(p.segments[n - 1].as_str());
    }
    out.append(p.args.as_str());
}

/// The first `k` of the leading segments, each followed by `::`.
pub open spec fn join_lead_first(segs: Seq<Seq<char>>, k: int) -> Seq<char>
    decreases k,
{
    if k <= 0 {
        Seq::empty()
    } else {
        join_lead_first(segs, k - 1) + segs[k - 1] + "::"@
    }
}

proof fn lemma_join_lead_first_step(segs: Seq<Seq<char>>, k: int)
    requires
        0 < k,
    ensures
        join_lead_first(segs, k) == join_lead_first(segs, k - 1) + segs[k - 1] + "::"@,
{
}

/// Writing the leading segments one by one produces [`join_lead`].
proof fn lemma_join_lead_first_full(segs: Seq<Seq<char>>)
    ensures
        segs.len() >= 1 ==> join_lead_first(segs, segs.len() - 1) == join_lead(segs),
    decreases segs.len(),
{
    if segs.len() > 1 {
        lemma_join_lead_first_full(segs.drop_first());
        lemma_join_lead_first_shift(segs, segs.len() - 2);
    }
}

/// Prepending a segment shifts [`join_lead_first`] by one.
proof fn lemma_join_lead_first_shift(segs: Seq<Seq<char>>, k: int)
    requires
        segs.len() >= 1,
        0 <= k < segs.len(),
    ensures
        join_lead_first(segs, k + 1) == segs[0] + "::"@ + join_lead_first(segs.drop_first(), k),
    decreases k,
{
    if k == 0 {
        assert(join_lead_first(segs, 0) == Seq::<char>::empty());
        assert(join_lead_first(segs.drop_first(), 0) == Seq::<char>::empty());
        assert(join_lead_first(segs, 1) =~= segs[0] + "::"@ + Seq::<char>::empty());
    } else {
        lemma_join_lead_first_shift(segs, k - 1);
        assert(segs.drop_first()[k - 1] == segs[k]);
        assert(join_lead_first(segs, k + 1) =~= segs[0] + "::"@ + join_lead_first(
            segs.drop_first(),
            k,
        ));
    }
}

// ---------------------------------------------------------------------------
// Generic-parameter lists
// ---------------------------------------------------------------------------

/// The parameters joined by `, `.
pub open spec fn join_comma(gs: Seq<Seq<char>>) -> Seq<char>
    decreases gs.len(),
{
    if gs.len() == 0 {
        Seq::empty()
    } else if gs.len() == 1 {
        gs[0]
    } else {
        gs[0] + ", "@ + join_comma(gs.drop_first())
    }
}

/// The rendered generic-parameter list: nothing when empty, otherwise
/// the parameters joined by `, ` inside angle brackets.
pub open spec fn render_generics(gs: Seq<Seq<char>>) -> Seq<char> {
    if gs.len() == 0 {
        Seq::empty()
    } else {
        "<"@ + join_comma(gs) + ">"@
    }
}

/// Writes [`render_generics`] of `gs`.
fn append_generics(out: &mut String, gs: &Vec<String>)
    ensures
        final(out)@ == old(out)@ + render_generics(gs.deep_view()),
{
    let n = gs.len();
    if n == 0 {
        return ;
    }
    let ghost base = out@;
    out.append("<");
    let mut k: usize = 0;
    while k + 1 < n
        invariant
            0 <= k < n,
            n == gs@.len(),
            out@ == base + "<"@ + comma_first(gs.deep_view(), k as int),
        decreases n - k,
    {
        out.append(gs[k].as_str());
        out.append(", ");
        k = k + 1;
    }
    out.append(gs[n - 1].as_str());
    out.append(">");
    proof {
        lemma_comma_first_full(gs.deep_view());
        assert(out@ =~= base + render_generics(gs.deep_view()));
    }
}

/// The first `k` parameters, each followed by `, `.
pub open spec fn comma_first(gs: Seq<Seq<char>>, k: int) -> Seq<char>
    decreases k,
{
    if k <= 0 {
        Seq::empty()
    } else {
        comma_first(gs, k - 1) + gs[k - 1] + ", "@
    }
}

/// Writing the parameters one by one produces [`join_comma`].
proof fn lemma_comma_first_full(gs: Seq<Seq<char>>)
    ensures
        gs.len() >= 1 ==> comma_first(gs, gs.len() - 1) + gs.last() == join_comma(gs),
    decreases gs.len(),
{
    if gs.len() > 1 {
        lemma_comma_first_full(gs.drop_first());
        lemma_comma_first_shift(gs, gs.len() - 2);
        assert(gs.drop_first().last() == gs.last());
    } else if gs.len() == 1 {
        assert(comma_first(gs, 0) + gs.last() =~= gs[0]);
    }
}

/// Prepending a parameter shifts [`comma_first`] by one.
proof fn lemma_comma_first_shift(gs: Seq<Seq<char>>, k: int)
    requires
        gs.len() >= 1,
        0 <= k < gs.len(),
    ensures
        comma_first(gs, k + 1) == gs[0] + ", "@ + comma_first(gs.drop_first(), k),
    decreases k,
{
    if k == 0 {
        assert(comma_first(gs, 0) == Seq::<char>::empty());
        assert(comma_first(gs.drop_first(), 0) == Seq::<char>::empty());
        assert(comma_first(gs, 1) =~= gs[0] + ", "@ + Seq::<char>::empty());
    } else {
        lemma_comma_first_shift(gs, k - 1);
        assert(gs.drop_first()[k - 1] == gs[k]);
        assert(comma_first(gs, k + 1) =~= gs[0] + ", "@ + comma_first(gs.drop_first(), k));
    }
}

// ---------------------------------------------------------------------------
// Contract members
// ---------------------------------------------------------------------------

/// The name a member is exposed under.
pub open spec fn member_name(m: ChainlinkFieldV) -> Seq<char> {
    match m {
        ChainlinkFieldV::Const { name, ty: _ } => name,
        ChainlinkFieldV::Mut { name, ty: _ } => name,
        ChainlinkFieldV::Static { name, ty: _ } => name,
        ChainlinkFieldV::Fn { sig } => sig,
    }
}

/// The abstract method declaration synthesized for one contract
/// member: an accessor signature for the three accessor kinds, the
/// signature itself for a free-form operation, each ending in `;`.
pub open spec fn render_member(m: ChainlinkFieldV) -> Seq<char> {
    match m {
        ChainlinkFieldV::Const { name, ty } => "fn "@ + name + "(&self) -> &"@ + ty + ";"@,
        ChainlinkFieldV::Mut { name, ty } => "fn "@ + name + "(&mut self) -> &mut "@ + ty + ";"@,
        ChainlinkFieldV::Static { name, ty } => "fn "@ + name + "() -> &'static "@ + ty + ";"@,
        ChainlinkFieldV::Fn { sig } => sig + ";"@,
    }
}

/// Executable twin of [`render_member`].
pub fn render_member_decl(m: &ChainlinkField) -> (r: String)
    ensures
        r@ == render_member(m.deep_view()),
{
    let mut out = String::new();
    match m {
        ChainlinkField::Const(name, ty) => {
            out.append("fn ");
            out.append(name.as_str());
            out.append("(&self) -> &");
            out.append(ty.as_str());
            out.append(";");
        },
        ChainlinkField::Mut(name, ty) => {
            out.append("fn ");
            out.append(name.as_str());
            out.append("(&mut self) -> &mut ");
            out.append(ty.as_str());
            out.append(";");
        },
        ChainlinkField::Static(name, ty) => {
            out.append("fn ");
            out.append(name.as_str());
            out.append("() -> &'static ");
            out.append(ty.as_str());
            out.append(";");
        },
        ChainlinkField::Fn(sig) => {
            out.append(sig.as_str());
            out.append(";");
        },
    }
    proof {
        assert(out@ =~= render_member(m.deep_view()));
    }
    out
}

/// The body of a synthesized trait: each member's declaration on its
/// own indented line.
pub open spec fn cat_members(ms: Seq<ChainlinkFieldV>) -> Seq<char>
    decreases ms.len(),
{
    if ms.len() == 0 {
        Seq::empty()
    } else {
        "    "@ + render_member(ms[0]) + "\n"@ + cat_members(ms.drop_first())
    }
}

/// Writes [`cat_members`] of `ms[k..]`.
fn append_members(out: &mut String, ms: &Vec<ChainlinkField>, k: usize)
    requires
        k <= ms@.len(),
    ensures
        final(out)@ == old(out)@ + cat_members(ms.deep_view().skip(k as int)),
    decreases ms@.len() - k,
{
    if k == ms.len() {
        proof {
            assert(ms.deep_view().skip(k as int).len() == 0);
            assert(out@ =~= out@ + cat_members(ms.deep_view().skip(k as int)));
        }
        return ;
    }
    let m = render_member_decl(&ms[k]);
    out.append("    ");
    out.append(m.as_str());
    out.append("\n");
    append_members(out, ms, k + 1);
    proof {
        let dv = ms.deep_view();
        assert(dv.skip(k as int).drop_first() =~= dv.skip(k as int + 1));
        assert(dv.skip(k as int)[0] == dv[k as int]);
        assert(out@ =~= old(out)@ + cat_members(dv.skip(k as int)));
    }
}

// ---------------------------------------------------------------------------
// Parent-contract lists
// ---------------------------------------------------------------------------

/// The parent references, suffixed, joined by ` + `.
pub open spec fn join_plus(ps: Seq<ChainPathV>) -> Seq<char>
    decreases ps.len(),
{
    if ps.len() == 0 {
        Seq::empty()
    } else if ps.len() == 1 {
        mangled_path(ps[0])
    } else {
        mangled_path(ps[0]) + " + "@ + join_plus(ps.drop_first())
    }
}

/// The rendered supertrait list: nothing when there are no parents,
/// otherwise `: ` and the suffixed parent references joined by ` + `.
pub open spec fn render_parents(ps: Seq<ChainPathV>) -> Seq<char> {
    if ps.len() == 0 {
        Seq::empty()
    } else {
        ": "@ + join_plus(ps)
    }
}

/// Writes [`join_plus`] of `ps[k..]`.
fn append_parents_from(out: &mut String, ps: &Vec<ChainPath>, k: usize)
    requires
        k < ps@.len(),
        forall|t: int| 0 <= t < ps.deep_view().len() ==> wf_path(#[trigger] ps.deep_view()[t]),
    ensures
        final(out)@ == old(out)@ + join_plus(ps.deep_view().skip(k as int)),
    decreases ps@.len() - k,
{
    let n = ps.len();
    proof {
        assert(wf_path(ps.deep_view()[k as int]));
        assert(ps.deep_view()[k as int].segments.len() == ps@[k as int].segments@.len());
    }
    append_path(out, &ps[k], true);
    proof {
        assert(ps.deep_view().skip(k as int)[0] == ps.deep_view()[k as int]);
    }
    if k + 1 < n {
        out.append(" + ");
        append_parents_from(out, ps, k + 1);
        proof {
            let dv = ps.deep_view();
            assert(dv.skip(k as int).drop_first() =~= dv.skip(k as int + 1));
            assert(out@ =~= old(out)@ + join_plus(dv.skip(k as int)));
        }
    } else {
        proof {
            assert(ps.deep_view().skip(k as int).len() == 1);
        }
    }
}

/// Writes [`render_parents`] of `ps`.
fn append_parents(out: &mut String, ps: &Vec<ChainPath>)
    requires
        forall|t: int| 0 <= t < ps.deep_view().len() ==> wf_path(#[trigger] ps.deep_view()[t]),
    ensures
        final(out)@ == old(out)@ + render_parents(ps.deep_view()),
{
    if ps.len() == 0 {
        proof {
            assert(out@ =~= out@ + render_parents(ps.deep_view()));
        }
        return ;
    }
    out.append(": ");
    append_parents_from(out, ps, 0);
    proof {
        assert(ps.deep_view().skip(0) =~= ps.deep_view());
        assert(out@ =~= old(out)@ + render_parents(ps.deep_view()));
    }
}

// ---------------------------------------------------------------------------
// Contract emission
// ---------------------------------------------------------------------------

/// The complete output for a contract: the suffixed abstract trait
/// (generic parameters preserved, parent references suffixed the same
/// way, one abstract method per member), and the alias under the
/// original name for the dynamically dispatched trait object.
pub open spec fn spec_emit_chainlink(c: ChainlinkV) -> Seq<char> {
    "pub trait "@ + suffixed(c.name) + render_generics(c.generics) + render_parents(c.parents)
        + " {\n"@ + cat_members(c.fields) + "}\n\npub type "@ + c.name + render_generics(
        c.generics,
    ) + " = dyn "@ + suffixed(c.name) + render_generics(c.generics) + ";\n"@
}

/// Synthesizes the declarations for one parsed contract.
pub fn emit_chainlink(c: &Chainlink) -> (r: String)
    requires
        wf_chainlink(c.deep_view()),
    ensures
        r@ == spec_emit_chainlink(c.deep_view()),
{
    let mut out = String::new();
    proof {
        assert forall|t: int| 0 <= t < c.parents.deep_view().len() implies wf_path(
            #[trigger] c.parents.deep_view()[t],
        ) by {
            assert(wf_path(c.deep_view().parents[t]));
        }
    }
    out.append("pub trait ");
    let sn = suffixed_name(&c.name);
    out.append(sn.as_str());
    append_generics(&mut out, &c.generics);
    append_parents(&mut out, &c.parents);
    out.append(" {\n");
    append_members(&mut out, &c.fields, 0);
    out.append("}\n\npub type ");
    out.append(c.name.as_str());
    append_generics(&mut out, &c.generics);
    out.append(" = dyn ");
    out.append(sn.as_str());
    append_generics(&mut out, &c.generics);
    out.append(";\n");
    proof {
        assert(c.fields.deep_view().skip(0) =~= c.fields.deep_view());
        assert(out@ =~= spec_emit_chainlink(c.deep_view()));
    }
    out
}

// ---------------------------------------------------------------------------
// Entity records
// ---------------------------------------------------------------------------

/// The text of an explicit visibility marker followed by a blank, or
/// nothing for inherited visibility.
pub open spec fn vis_prefix(v: VisibilityV) -> Seq<char> {
    match v {
        VisibilityV::Inherited => Seq::empty(),
        VisibilityV::Explicit { text, at: _ } => text + " "@,
    }
}

/// The record line synthesized for one field: a storage slot for a
/// value or mutable field; a static field contributes no storage.
pub open spec fn record_line(f: ChainFieldDataV) -> Seq<char> {
    match f {
        ChainFieldDataV::Const { vis, name, ty } => "    "@ + vis_prefix(vis) + name + ": "@ + ty
            + ",\n"@,
        ChainFieldDataV::Mut { name, ty } => "    "@ + name + ": "@ + ty + ",\n"@,
        ChainFieldDataV::Static { name: _, ty: _, expr: _ } => Seq::empty(),
    }
}

/// The record body: one line per stored field, in declaration order.
pub open spec fn cat_record_fields(fs: Seq<ChainFieldV>) -> Seq<char>
    decreases fs.len(),
{
    if fs.len() == 0 {
        Seq::empty()
    } else {
        record_line(fs[0].field) + cat_record_fields(fs.drop_first())
    }
}

/// The record type synthesized for an entity.
pub open spec fn spec_emit_record(e: ChainV) -> Seq<char> {
    "pub struct "@ + e.name + render_generics(e.generics) + " {\n"@ + cat_record_fields(e.fields)
        + "}\n"@
}

/// Writes [`cat_record_fields`] of `fs[k..]`.
fn append_record_fields(out: &mut String, fs: &Vec<ChainField>, k: usize)
    requires
        k <= fs@.len(),
    ensures
        final(out)@ == old(out)@ + cat_record_fields(fs.deep_view().skip(k as int)),
    decreases fs@.len() - k,
{
    if k == fs.len() {
        proof {
            assert(fs.deep_view().skip(k as int).len() == 0);
            assert(out@ =~= out@ + cat_record_fields(fs.deep_view().skip(k as int)));
        }
        return ;
    }
    match &fs[k].field {
        ChainFieldData::Const(vis, name, ty) => {
            out.append("    ");
            match vis {
                Visibility::Inherited => {},
                Visibility::Explicit(text, _) => {
                    out.append(text.as_str());
                    out.append(" ");
                },
            }
            out.append(name.as_str());
            out.append(": ");
            out.append(ty.as_str());
            out.append(",\n");
        },
        ChainFieldData::Mut(name, ty) => {
            out.append("    ");
            out.append(name.as_str());
            out.append(": ");
            out.append(ty.as_str());
            out.append(",\n");
        },
        ChainFieldData::Static(_, _, _) => {},
    }
    append_record_fields(out, fs, k + 1);
    proof {
        let dv = fs.deep_view();
        assert(dv.skip(k as int).drop_first() =~= dv.skip(k as int + 1));
        assert(dv.skip(k as int)[0] == dv[k as int]);
        assert(out@ =~= old(out)@ + cat_record_fields(dv.skip(k as int)));
    }
}

// ---------------------------------------------------------------------------
// Grouping fields by contract
// ---------------------------------------------------------------------------

/// Whether `ps` holds the path `p`.
pub open spec fn path_in(ps: Seq<ChainPathV>, p: ChainPathV) -> bool {
    exists|t: int| 0 <= t < ps.len() && ps[t] == p
}

/// Every contract tag of every field, in declaration order.
pub open spec fn all_tags(fs: Seq<ChainFieldV>) -> Seq<ChainPathV>
    decreases fs.len(),
{
    if fs.len() == 0 {
        Seq::empty()
    } else {
        fs[0].parents + all_tags(fs.drop_first())
    }
}

/// `seen` extended with the paths of `ps` it does not hold yet, in
/// first-occurrence order.
pub open spec fn dedup_acc(ps: Seq<ChainPathV>, seen: Seq<ChainPathV>) -> Seq<ChainPathV>
    decreases ps.len(),
{
    if ps.len() == 0 {
        seen
    } else if path_in(seen, ps[0]) {
        dedup_acc(ps.drop_first(), seen)
    } else {
        dedup_acc(ps.drop_first(), seen.push(ps[0]))
    }
}

/// The distinct contracts an entity participates in, in order of first
/// occurrence among its fields' tags: one implementation is emitted
/// per entry.
pub open spec fn distinct_parents(fs: Seq<ChainFieldV>) -> Seq<ChainPathV> {
    dedup_acc(all_tags(fs), Seq::empty())
}

/// The data of the fields tagged with contract `p`, in declaration
/// order: the members of `p`'s implementation block.
pub open spec fn fields_for(fs: Seq<ChainFieldV>, p: ChainPathV) -> Seq<ChainFieldDataV>
    decreases fs.len(),
{
    if fs.len() == 0 {
        Seq::empty()
    } else if path_in(fs[0].parents, p) {
        seq![fs[0].field] + fields_for(fs.drop_first(), p)
    } else {
        fields_for(fs.drop_first(), p)
    }
}

/// Whether two paths have the same view.
pub fn path_eq(a: &ChainPath, b: &ChainPath) -> (r: bool)
    ensures
        r == (a.deep_view() == b.deep_view()),
{
    let n = a.segments.len();
    if n != b.segments.len() {
        proof {
            assert(a.deep_view().segments.len() != b.deep_view().segments.len());
        }
        return false;
    }
    let mut k: usize = 0;
    while k < n
        invariant
            0 <= k <= n,
            n == a.segments@.len() == b.segments@.len(),
            forall|m: int| 0 <= m < k ==> a.segments.deep_view()[m] == b.segments.deep_view()[m],
        decreases n - k,
    {
        if !(a.segments[k] == b.segments[k]) {
            proof {
                assert(a.deep_view().segments[k as int] != b.deep_view().segments[k as int]);
            }
            return false;
        }
        k = k + 1;
    }
    if a.args == b.args {
        proof {
            assert(a.deep_view().segments =~= b.deep_view().segments);
            assert(a.deep_view() == b.deep_view());
        }
        true
    } else {
        proof {
            assert(a.deep_view().args != b.deep_view().args);
        }
        false
    }
}

/// Whether the tag list `ps` holds the path `p`.
pub fn tags_contain(ps: &Vec<ChainPath>, p: &ChainPath) -> (r: bool)
    ensures
        r == path_in(ps.deep_view(), p.deep_view()),
{
    let n = ps.len();
    let mut k: usize = 0;
    while k < n
        invariant
            0 <= k <= n,
            n == ps@.len(),
            forall|t: int| 0 <= t < k ==> ps.deep_view()[t] != p.deep_view(),
        decreases n - k,
    {
        if path_eq(&ps[k], p) {
            proof {
                assert(ps.deep_view()[k as int] == p.deep_view());
            }
            return true;
        }
        k = k + 1;
    }
    false
}

/// Folding [`dedup_acc`] over a concatenation processes the two parts
/// in turn.
proof fn lemma_dedup_concat(a: Seq<ChainPathV>, b: Seq<ChainPathV>, seen: Seq<ChainPathV>)
    ensures
        dedup_acc(a + b, seen) == dedup_acc(b, dedup_acc(a, seen)),
    decreases a.len(),
{
    if a.len() == 0 {
        assert(a + b =~= b);
    } else {
        assert((a + b)[0] == a[0]);
        assert((a + b).drop_first() =~= a.drop_first() + b);
        if path_in(seen, a[0]) {
            lemma_dedup_concat(a.drop_first(), b, seen);
        } else {
            lemma_dedup_concat(a.drop_first(), b, seen.push(a[0]));
        }
    }
}

/// Executable twin of [`dedup_acc`] over one field's tag list.
fn dedup_one_field(ps: &Vec<ChainPath>, t: usize, seen: Vec<ChainPath>) -> (r: Vec<ChainPath>)
    requires
        t <= ps@.len(),
        forall|m: int| 0 <= m < ps.deep_view().len() ==> wf_path(#[trigger] ps.deep_view()[m]),
        forall|m: int| 0 <= m < seen.deep_view().len() ==> wf_path(#[trigger] seen.deep_view()[m]),
    ensures
        r.deep_view() == dedup_acc(ps.deep_view().skip(t as int), seen.deep_view()),
        forall|m: int| 0 <= m < r.deep_view().len() ==> wf_path(#[trigger] r.deep_view()[m]),
    decreases ps@.len() - t,
{
    if t == ps.len() {
        proof {
            assert(ps.deep_view().skip(t as int).len() == 0);
        }
        return seen;
    }
    proof {
        assert(ps.deep_view().skip(t as int)[0] == ps.deep_view()[t as int]);
        assert(ps.deep_view().skip(t as int).drop_first() =~= ps.deep_view().skip(t as int + 1));
    }
    if tags_contain(&seen, &ps[t]) {
        dedup_one_field(ps, t + 1, seen)
    } else {
        let ghost pv = ps.deep_view()[t as int];
        let mut seen2 = seen;
        seen2.push(ps[t].clone());
        proof {
            assert(seen2.deep_view() =~= seen.deep_view().push(pv));
        }
        dedup_one_field(ps, t + 1, seen2)
    }
}

/// Executable twin of [`dedup_acc`] over the tags of `fs[k..]`.
fn dedup_tags(fs: &Vec<ChainField>, k: usize, seen: Vec<ChainPath>) -> (r: Vec<ChainPath>)
    requires
        k <= fs@.len(),
        wf_fields(fs.deep_view()),
        forall|m: int| 0 <= m < seen.deep_view().len() ==> wf_path(#[trigger] seen.deep_view()[m]),
    ensures
        r.deep_view() == dedup_acc(all_tags(fs.deep_view().skip(k as int)), seen.deep_view()),
        forall|m: int| 0 <= m < r.deep_view().len() ==> wf_path(#[trigger] r.deep_view()[m]),
    decreases fs@.len() - k,
{
    if k == fs.len() {
        proof {
            assert(fs.deep_view().skip(k as int).len() == 0);
            assert(all_tags(fs.deep_view().skip(k as int)).len() == 0);
        }
        return seen;
    }
    proof {
        let dv = fs.deep_view();
        assert(dv.skip(k as int)[0] == dv[k as int]);
        assert(dv.skip(k as int).drop_first() =~= dv.skip(k as int + 1));
        assert forall|m: int| 0 <= m < fs@[k as int].parents.deep_view().len() implies wf_path(
            #[trigger] fs@[k as int].parents.deep_view()[m],
        ) by {
            assert(wf_path(dv[k as int].parents[m]));
        }
    }
    let seen2 = dedup_one_field(&fs[k].parents, 0, seen);
    proof {
        let dv = fs.deep_view();
        assert(fs@[k as int].parents.deep_view().skip(0) =~= dv[k as int].parents);
        lemma_dedup_concat(
            dv[k as int].parents,
            all_tags(dv.skip(k as int + 1)),
            seen.deep_view(),
        );
    }
    dedup_tags(fs, k + 1, seen2)
}

/// Lists the distinct contracts the entity's fields are tagged with,
/// in first-occurrence order.
pub fn distinct_parent_list(fs: &Vec<ChainField>) -> (r: Vec<ChainPath>)
    requires
        wf_fields(fs.deep_view()),
    ensures
        r.deep_view() == distinct_parents(fs.deep_view()),
        forall|m: int| 0 <= m < r.deep_view().len() ==> wf_path(#[trigger] r.deep_view()[m]),
{
    let empty: Vec<ChainPath> = Vec::new();
    proof {
        assert(empty.deep_view() =~= Seq::<ChainPathV>::empty());
        assert(fs.deep_view().skip(0) =~= fs.deep_view());
    }
    dedup_tags(fs, 0, empty)
}

// ---------------------------------------------------------------------------
// Accessors
// ---------------------------------------------------------------------------

/// The method synthesized for one field in a contract implementation:
/// value and mutable accessors return a direct reference to the stored
/// field of the same name; a static accessor takes no receiver and
/// returns a reference to the field's constant expression.
pub open spec fn render_accessor(f: ChainFieldDataV) -> Seq<char> {
    match f {
        ChainFieldDataV::Const { vis: _, name, ty } => "fn "@ + name + "(&self) -> &"@ + ty
            + " {\n        &self."@ + name + "\n    }"@,
        ChainFieldDataV::Mut { name, ty } => "fn "@ + name + "(&mut self) -> &mut "@ + ty
            + " {\n        &mut self."@ + name + "\n    }"@,
        ChainFieldDataV::Static { name, ty, expr } => "fn "@ + name + "() -> &'static "@ + ty
            + " {\n        &"@ + expr + "\n    }"@,
    }
}

/// Executable twin of [`render_accessor`].
pub fn render_accessor_decl(f: &ChainFieldData) -> (r: String)
    ensures
        r@ == render_accessor(f.deep_view()),
{
    let mut out = String::new();
    match f {
        ChainFieldData::Const(_, name, ty) => {
            out.append("fn ");
            out.append(name.as_str());
            out.append("(&self) -> &");
            out.append(ty.as_str());
            out.append(" {\n        &self.");
            out.append(name.as_str());
            out.append("\n    }");
        },
        ChainFieldData::Mut(name, ty) => {
            out.append("fn ");
            out.append(name.as_str());
            out.append("(&mut self) -> &mut ");
            out.append(ty.as_str());
            out.append(" {\n        &mut self.");
            out.append(name.as_str());
            out.append("\n    }");
        },
        ChainFieldData::Static(name, ty, expr) => {
            out.append("fn ");
            out.append(name.as_str());
            out.append("() -> &'static ");
            out.append(ty.as_str());
            out.append(" {\n        &");
            out.append(expr.as_str());
            out.append("\n    }");
        },
    }
    proof {
        assert(out@ =~= render_accessor(f.deep_view()));
    }
    out
}

/// The body of one implementation block: each accessor on its own
/// indented line.
pub open spec fn cat_accessors(fs: Seq<ChainFieldDataV>) -> Seq<char>
    decreases fs.len(),
{
    if fs.len() == 0 {
        Seq::empty()
    } else {
        "    "@ + render_accessor(fs[0]) + "\n"@ + cat_accessors(fs.drop_first())
    }
}

/// Writes [`cat_accessors`] of the fields of `fs[k..]` tagged with `p`.
fn append_accessors(out: &mut String, fs: &Vec<ChainField>, p: &ChainPath, k: usize)
    requires
        k <= fs@.len(),
    ensures
        final(out)@ == old(out)@ + cat_accessors(
            fields_for(fs.deep_view().skip(k as int), p.deep_view()),
        ),
    decreases fs@.len() - k,
{
    if k == fs.len() {
        proof {
            assert(fs.deep_view().skip(k as int).len() == 0);
            assert(out@ =~= out@ + cat_accessors(
                fields_for(fs.deep_view().skip(k as int), p.deep_view()),
            ));
        }
        return ;
    }
    let hit = tags_contain(&fs[k].parents, p);
    if hit {
        let acc = render_accessor_decl(&fs[k].field);
        out.append("    ");
        out.append(acc.as_str());
        out.append("\n");
    }
    append_accessors(out, fs, p, k + 1);
    proof {
        let dv = fs.deep_view();
        let pv = p.deep_view();
        assert(dv.skip(k as int)[0] == dv[k as int]);
        assert(dv.skip(k as int).drop_first() =~= dv.skip(k as int + 1));
        if hit {
            let cons = seq![dv[k as int].field] + fields_for(dv.skip(k as int + 1), pv);
            assert(cons[0] == dv[k as int].field);
            assert(cons.drop_first() =~= fields_for(dv.skip(k as int + 1), pv));
            assert(out@ =~= old(out)@ + cat_accessors(fields_for(dv.skip(k as int), pv)));
        } else {
            assert(out@ =~= old(out)@ + cat_accessors(fields_for(dv.skip(k as int), pv)));
        }
    }
}

// ---------------------------------------------------------------------------
// Entity emission
// ---------------------------------------------------------------------------

/// One implementation block: the suffixed contract reference
/// implemented for the entity's record, each tagged field's accessor
/// delegating to the record's own storage.
pub open spec fn spec_emit_entity_impl(e: ChainV, p: ChainPathV) -> Seq<char> {
    "impl"@ + render_generics(e.generics) + " "@ + mangled_path(p) + " for "@ + e.name
        + render_generics(e.generics) + " {\n"@ + cat_accessors(fields_for(e.fields, p)) + "}\n"@
}

/// The implementation blocks for the contracts in `ps`, each preceded
/// by a blank line.
pub open spec fn cat_entity_impls(e: ChainV, ps: Seq<ChainPathV>) -> Seq<char>
    decreases ps.len(),
{
    if ps.len() == 0 {
        Seq::empty()
    } else {
        "\n"@ + spec_emit_entity_impl(e, ps[0]) + cat_entity_impls(e, ps.drop_first())
    }
}

/// The complete output for an entity: its record, then one
/// implementation block per distinct tagged contract, in
/// first-occurrence order.
pub open spec fn spec_emit_chain(e: ChainV) -> Seq<char> {
    spec_emit_record(e) + cat_entity_impls(e, distinct_parents(e.fields))
}

/// Writes [`cat_entity_impls`] of `ps[k..]`.
#[verifier::rlimit(50)]
fn append_entity_impls(out: &mut String, e: &Chain, ps: &Vec<ChainPath>, k: usize)
    requires
        k <= ps@.len(),
        forall|m: int| 0 <= m < ps.deep_view().len() ==> wf_path(#[trigger] ps.deep_view()[m]),
    ensures
        final(out)@ == old(out)@ + cat_entity_impls(e.deep_view(), ps.deep_view().skip(k as int)),
    decreases ps@.len() - k,
{
    if k == ps.len() {
        proof {
            assert(ps.deep_view().skip(k as int).len() == 0);
            assert(out@ =~= out@ + cat_entity_impls(
                e.deep_view(),
                ps.deep_view().skip(k as int),
            ));
        }
        return ;
    }
    proof {
        assert(wf_path(ps.deep_view()[k as int]));
        assert(ps.deep_view()[k as int].segments.len() == ps@[k as int].segments@.len());
    }
    out.append("\n");
    out.append("impl");
    append_generics(out, &e.generics);
    out.append(" ");
    append_path(out, &ps[k], true);
    out.append(" for ");
    out.append(e.name.as_str());
    append_generics(out, &e.generics);
    out.append(" {\n");
    append_accessors(out, &e.fields, &ps[k], 0);
    out.append("}\n");
    proof {
        let dv = ps.deep_view();
        assert(e.fields.deep_view().skip(0) =~= e.fields.deep_view());
        assert(out@ =~= old(out)@ + "\n"@ + spec_emit_entity_impl(e.deep_view(), dv[k as int]));
    }
    let ghost mid = out@;
    append_entity_impls(out, e, ps, k + 1);
    proof {
        let dv = ps.deep_view();
        assert(dv.skip(k as int)[0] == dv[k as int]);
        assert(dv.skip(k as int).drop_first() =~= dv.skip(k as int + 1));
        assert(out@ == mid + cat_entity_impls(e.deep_view(), dv.skip(k as int + 1)));
        assert(out@ =~= old(out)@ + cat_entity_impls(e.deep_view(), dv.skip(k as int)));
    }
}

/// Synthesizes the declarations for one parsed entity.
pub fn emit_chain(e: &Chain) -> (r: String)
    requires
        wf_chain(e.deep_view()),
    ensures
        r@ == spec_emit_chain(e.deep_view()),
{
    let mut out = String::new();
    out.append("pub struct ");
    out.append(e.name.as_str());
    append_generics(&mut out, &e.generics);
    out.append(" {\n");
    append_record_fields(&mut out, &e.fields, 0);
    out.append("}\n");
    proof {
        assert(e.fields.deep_view().skip(0) =~= e.fields.deep_view());
        assert(e.deep_view().fields == e.fields.deep_view());
        assert(out@ =~= spec_emit_record(e.deep_view()));
    }
    let parents = distinct_parent_list(&e.fields);
    append_entity_impls(&mut out, e, &parents, 0);
    proof {
        assert(parents.deep_view().skip(0) =~= parents.deep_view());
        assert(out@ =~= spec_emit_chain(e.deep_view()));
    }
    out
}

// ---------------------------------------------------------------------------
// Visibility validation
// ---------------------------------------------------------------------------

/// The offset of the visibility marker of the first value field that
/// is both contract-tagged and explicitly visible, if any: such a
/// field would open a second access path beside its accessors, so the
/// whole entity is rejected.
pub open spec fn spec_vis_violation(fs: Seq<ChainFieldV>) -> Option<int>
    decreases fs.len(),
{
    if fs.len() == 0 {
        None
    } else {
        let rest = spec_vis_violation(fs.drop_first());
        match fs[0].field {
            ChainFieldDataV::Const { vis, name: _, ty: _ } => match vis {
                VisibilityV::Explicit { text: _, at } => if fs[0].parents.len() > 0 {
                    Some(at)
                } else {
                    rest
                },
                VisibilityV::Inherited => rest,
            },
            _ => rest,
        }
    }
}

/// Finds the first contract-tagged value field with explicit
/// visibility among `fs[k..]`, returning its marker's offset.
pub fn find_vis_violation(fs: &Vec<ChainField>, k: usize) -> (r: Option<usize>)
    requires
        k <= fs@.len(),
    ensures
        match r {
            Some(at) => spec_vis_violation(fs.deep_view().skip(k as int)) == Some(at as int),
            None => spec_vis_violation(fs.deep_view().skip(k as int)) is None,
        },
    decreases fs@.len() - k,
{
    if k == fs.len() {
        proof {
            assert(fs.deep_view().skip(k as int).len() == 0);
        }
        return None;
    }
    proof {
        let dv = fs.deep_view();
        assert(dv.skip(k as int)[0] == dv[k as int]);
        assert(dv.skip(k as int).drop_first() =~= dv.skip(k as int + 1));
    }
    let hit: Option<usize> = match &fs[k].field {
        ChainFieldData::Const(Visibility::Explicit(_, at), _, _) => {
            if fs[k].parents.len() > 0 {
                Some(*at)
            } else {
                None
            }
        },
        _ => None,
    };
    match hit {
        Some(at) => Some(at),
        None => find_vis_violation(fs, k + 1),
    }
}

// ---------------------------------------------------------------------------
// Import emission
// ---------------------------------------------------------------------------

/// The import lines for the referenced contracts: for each path, in
/// input order, one `use` of the suffixed interface and one of the
/// original alias name.
pub open spec fn cat_use_lines(ps: Seq<ChainPathV>) -> Seq<char>
    decreases ps.len(),
{
    if ps.len() == 0 {
        Seq::empty()
    } else {
        "use "@ + mangled_path(ps[0]) + ";\n"@ + "use "@ + plain_path(ps[0]) + ";\n"@
            + cat_use_lines(ps.drop_first())
    }
}

/// The complete output for an import list.
pub open spec fn spec_emit_use_chains(u: UseChainsV) -> Seq<char> {
    cat_use_lines(u.paths)
}

/// Writes [`cat_use_lines`] of `ps[k..]`.
fn append_use_lines(out: &mut String, ps: &Vec<ChainPath>, k: usize)
    requires
        k <= ps@.len(),
        forall|m: int| 0 <= m < ps.deep_view().len() ==> wf_path(#[trigger] ps.deep_view()[m]),
    ensures
        final(out)@ == old(out)@ + cat_use_lines(ps.deep_view().skip(k as int)),
    decreases ps@.len() - k,
{
    if k == ps.len() {
        proof {
            assert(ps.deep_view().skip(k as int).len() == 0);
            assert(out@ =~= out@ + cat_use_lines(ps.deep_view().skip(k as int)));
        }
        return ;
    }
    proof {
        assert(wf_path(ps.deep_view()[k as int]));
        assert(ps.deep_view()[k as int].segments.len() == ps@[k as int].segments@.len());
    }
    out.append("use ");
    append_path(out, &ps[k], true);
    out.append(";\n");
    out.append("use ");
    append_path(out, &ps[k], false);
    out.append(";\n");
    append_use_lines(out, ps, k + 1);
    proof {
        let dv = ps.deep_view();
        assert(dv.skip(k as int)[0] == dv[k as int]);
        assert(dv.skip(k as int).drop_first() =~= dv.skip(k as int + 1));
        assert(out@ =~= old(out)@ + cat_use_lines(dv.skip(k as int)));
    }
}

/// Synthesizes the imports for one parsed import list.
pub fn emit_use_chains(u: &UseChains) -> (r: String)
    requires
        wf_use_chains(u.deep_view()),
    ensures
        r@ == spec_emit_use_chains(u.deep_view()),
{
    let mut out = String::new();
    proof {
        assert forall|t: int| 0 <= t < u.0.deep_view().len() implies wf_path(
            #[trigger] u.0.deep_view()[t],
        ) by {
            assert(wf_path(u.deep_view().paths[t]));
        }
    }
    append_use_lines(&mut out, &u.0, 0);
    proof {
        assert(u.0.deep_view().skip(0) =~= u.0.deep_view());
        assert(out@ =~= spec_emit_use_chains(u.deep_view()));
    }
    out
}

// ---------------------------------------------------------------------------
// Manual-binding emission
// ---------------------------------------------------------------------------

/// The contract path of each supplied implementation, in order.
pub open spec fn impl_paths(is: Seq<ImplChainV>) -> Seq<ChainPathV>
    decreases is.len(),
{
    if is.len() == 0 {
        Seq::empty()
    } else {
        seq![is[0].chain] + impl_paths(is.drop_first())
    }
}

/// The distinct contracts of a manual-binding block, in
/// first-occurrence order.
pub open spec fn distinct_impl_paths(is: Seq<ImplChainV>) -> Seq<ChainPathV> {
    dedup_acc(impl_paths(is), Seq::empty())
}

/// The functions supplied for contract `p`, verbatim, in order.
pub open spec fn funcs_for(is: Seq<ImplChainV>, p: ChainPathV) -> Seq<Seq<char>>
    decreases is.len(),
{
    if is.len() == 0 {
        Seq::empty()
    } else if is[0].chain == p {
        seq![is[0].func] + funcs_for(is.drop_first(), p)
    } else {
        funcs_for(is.drop_first(), p)
    }
}

/// The body of one manual implementation block: each supplied function
/// on its own indented line, passed through unmodified.
pub open spec fn cat_funcs(fs: Seq<Seq<char>>) -> Seq<char>
    decreases fs.len(),
{
    if fs.len() == 0 {
        Seq::empty()
    } else {
        "    "@ + fs[0] + "\n"@ + cat_funcs(fs.drop_first())
    }
}

/// The rendered constraint clause, or nothing.
pub open spec fn render_where(wc: Option<Seq<char>>) -> Seq<char> {
    match wc {
        None => Seq::empty(),
        Some(w) => w,
    }
}

/// One manual implementation block: the suffixed contract implemented
/// for the target type, under the supplied constraint clause, holding
/// the supplied functions verbatim.
pub open spec fn spec_emit_impl_block(ic: ImplChainsV, p: ChainPathV) -> Seq<char> {
    "impl"@ + render_where(ic.where_clause) + " "@ + mangled_path(p) + " for "@ + ic.ty + " {\n"@
        + cat_funcs(funcs_for(ic.impls, p)) + "}\n"@
}

/// The implementation blocks for the contracts in `ps`, separated by
/// blank lines.
pub open spec fn cat_impl_blocks(ic: ImplChainsV, ps: Seq<ChainPathV>) -> Seq<char>
    decreases ps.len(),
{
    if ps.len() == 0 {
        Seq::empty()
    } else if ps.len() == 1 {
        spec_emit_impl_block(ic, ps[0])
    } else {
        spec_emit_impl_block(ic, ps[0]) + "\n"@ + cat_impl_blocks(ic, ps.drop_first())
    }
}

/// The complete output for a manual-binding block: one implementation
/// per distinct contract, in first-occurrence order.
pub open spec fn spec_emit_impl_chains(ic: ImplChainsV) -> Seq<char> {
    cat_impl_blocks(ic, distinct_impl_paths(ic.impls))
}

/// Executable twin of [`dedup_acc`] over the contract paths of
/// `is[t..]`.
fn dedup_impl_paths(is: &Vec<ImplChain>, t: usize, seen: Vec<ChainPath>) -> (r: Vec<ChainPath>)
    requires
        t <= is@.len(),
        forall|m: int| 0 <= m < is.deep_view().len() ==> wf_path(
            #[trigger] is.deep_view()[m].chain,
        ),
        forall|m: int| 0 <= m < seen.deep_view().len() ==> wf_path(#[trigger] seen.deep_view()[m]),
    ensures
        r.deep_view() == dedup_acc(impl_paths(is.deep_view().skip(t as int)), seen.deep_view()),
        forall|m: int| 0 <= m < r.deep_view().len() ==> wf_path(#[trigger] r.deep_view()[m]),
    decreases is@.len() - t,
{
    if t == is.len() {
        proof {
            assert(is.deep_view().skip(t as int).len() == 0);
            assert(impl_paths(is.deep_view().skip(t as int)).len() == 0);
        }
        return seen;
    }
    proof {
        let dv = is.deep_view();
        assert(dv.skip(t as int)[0] == dv[t as int]);
        assert(dv.skip(t as int).drop_first() =~= dv.skip(t as int + 1));
        let c = impl_paths(dv.skip(t as int));
        assert(c[0] == dv[t as int].chain);
        assert(c.drop_first() =~= impl_paths(dv.skip(t as int + 1)));
    }
    if tags_contain(&seen, &is[t].chain) {
        dedup_impl_paths(is, t + 1, seen)
    } else {
        let ghost pv = is.deep_view()[t as int].chain;
        let mut seen2 = seen;
        seen2.push(is[t].chain.clone());
        proof {
            assert(seen2.deep_view() =~= seen.deep_view().push(pv));
        }
        dedup_impl_paths(is, t + 1, seen2)
    }
}

/// Writes [`cat_funcs`] of the functions of `is[t..]` supplied for `p`.
fn append_funcs(out: &mut String, is: &Vec<ImplChain>, p: &ChainPath, t: usize)
    requires
        t <= is@.len(),
    ensures
        final(out)@ == old(out)@ + cat_funcs(
            funcs_for(is.deep_view().skip(t as int), p.deep_view()),
        ),
    decreases is@.len() - t,
{
    if t == is.len() {
        proof {
            assert(is.deep_view().skip(t as int).len() == 0);
            assert(out@ =~= out@ + cat_funcs(
                funcs_for(is.deep_view().skip(t as int), p.deep_view()),
            ));
        }
        return ;
    }
    let hit = path_eq(&is[t].chain, p);
    if hit {
        out.append("    ");
        out.append(is[t].func.as_str());
        out.append("\n");
    }
    append_funcs(out, is, p, t + 1);
    proof {
        let dv = is.deep_view();
        let pv = p.deep_view();
        assert(dv.skip(t as int)[0] == dv[t as int]);
        assert(dv.skip(t as int).drop_first() =~= dv.skip(t as int + 1));
        if hit {
            let cons = seq![dv[t as int].func] + funcs_for(dv.skip(t as int + 1), pv);
            assert(cons[0] == dv[t as int].func);
            assert(cons.drop_first() =~= funcs_for(dv.skip(t as int + 1), pv));
            assert(out@ =~= old(out)@ + cat_funcs(funcs_for(dv.skip(t as int), pv)));
        } else {
            assert(out@ =~= old(out)@ + cat_funcs(funcs_for(dv.skip(t as int), pv)));
        }
    }
}

/// Writes [`cat_impl_blocks`] of `ps[k..]`.
#[verifier::rlimit(50)]
fn append_impl_blocks(out: &mut String, ic: &ImplChains, ps: &Vec<ChainPath>, k: usize)
    requires
        k < ps@.len(),
        forall|m: int| 0 <= m < ps.deep_view().len() ==> wf_path(#[trigger] ps.deep_view()[m]),
    ensures
        final(out)@ == old(out)@ + cat_impl_blocks(ic.deep_view(), ps.deep_view().skip(k as int)),
    decreases ps@.len() - k,
{
    let n = ps.len();
    proof {
        assert(wf_path(ps.deep_view()[k as int]));
        assert(ps.deep_view()[k as int].segments.len() == ps@[k as int].segments@.len());
    }
    out.append("impl");
    match &ic.where_clause {
        Some(w) => out.append(w.as_str()),
        None => {},
    }
    out.append(" ");
    append_path(out, &ps[k], true);
    out.append(" for ");
    out.append(ic.ty.as_str());
    out.append(" {\n");
    append_funcs(out, &ic.impls, &ps[k], 0);
    out.append("}\n");
    proof {
        let dv = ps.deep_view();
        assert(ic.impls.deep_view().skip(0) =~= ic.impls.deep_view());
        assert(dv.skip(k as int)[0] == dv[k as int]);
        assert(out@ =~= old(out)@ + spec_emit_impl_block(ic.deep_view(), dv[k as int]));
    }
    let ghost mid = out@;
    if k + 1 < n {
        out.append("\n");
        append_impl_blocks(out, ic, ps, k + 1);
        proof {
            let dv = ps.deep_view();
            assert(dv.skip(k as int).drop_first() =~= dv.skip(k as int + 1));
            assert(out@ == mid + "\n"@ + cat_impl_blocks(ic.deep_view(), dv.skip(k as int + 1)));
            assert(out@ =~= old(out)@ + cat_impl_blocks(ic.deep_view(), dv.skip(k as int)));
        }
    } else {
        proof {
            assert(ps.deep_view().skip(k as int).len() == 1);
        }
    }
}

/// Synthesizes the declarations for one parsed manual-binding block.
pub fn emit_impl_chains(ic: &ImplChains) -> (r: String)
    requires
        wf_impl_chains(ic.deep_view()),
    ensures
        r@ == spec_emit_impl_chains(ic.deep_view()),
{
    let mut out = String::new();
    proof {
        assert forall|t: int| 0 <= t < ic.impls.deep_view().len() implies wf_path(
            #[trigger] ic.impls.deep_view()[t].chain,
        ) by {
            assert(wf_path(ic.deep_view().impls[t].chain));
        }
        assert(ic.impls.deep_view().skip(0) =~= ic.impls.deep_view());
    }
    let empty: Vec<ChainPath> = Vec::new();
    proof {
        assert(empty.deep_view() =~= Seq::<ChainPathV>::empty());
    }
    let parents = dedup_impl_paths(&ic.impls, 0, empty);
    proof {
        assert(ic.deep_view().impls == ic.impls.deep_view());
        assert(parents.deep_view() == distinct_impl_paths(ic.deep_view().impls));
    }
    if parents.len() == 0 {
        proof {
            assert(parents.deep_view().len() == 0);
            assert(out@ =~= spec_emit_impl_chains(ic.deep_view()));
        }
        return out;
    }
    append_impl_blocks(&mut out, ic, &parents, 0);
    proof {
        assert(parents.deep_view().skip(0) =~= parents.deep_view());
        assert(out@ =~= spec_emit_impl_chains(ic.deep_view()));
    }
    out
}

} // verus!
