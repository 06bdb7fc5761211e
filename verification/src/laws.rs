//! Laws the synthesis semantics obeys, stated and proved.
//!
//! Each public proof function here states one property of the
//! generator over the specification functions that the emission
//! contracts are written in: what an interface exposes, how accessors
//! are backed by storage, when an implementation block exists, what a
//! static accessor may depend on, and which declarations are rejected.

use vstd::prelude::*;

use crate::ast::{
    ChainFieldDataV, ChainFieldV, ChainlinkFieldV, ChainlinkV, ChainPathV, ChainV, ErrorKind,
    ParseErrorV, VisibilityV,
};
use crate::chain_output;
use crate::parse::spec_parse_chain;
use crate::synth::{
    all_tags, cat_accessors, cat_funcs, cat_members, dedup_acc, distinct_parents, fields_for,
    member_name, path_in, record_line, render_accessor, render_member, spec_vis_violation,
};

verus! {

/// The method declarations a synthesized interface exposes: one per
/// contract member, in order.
pub open spec fn interface_methods(c: ChainlinkV) -> Seq<Seq<char>> {
    c.fields.map_values(|m: ChainlinkFieldV| render_member(m))
}

/// The fixed signature tail rendered after a member's name.
pub open spec fn member_sig_tail(m: ChainlinkFieldV) -> Seq<char> {
    match m {
        ChainlinkFieldV::Const { name: _, ty } => "(&self) -> &"@ + ty + ";"@,
        ChainlinkFieldV::Mut { name: _, ty } => "(&mut self) -> &mut "@ + ty + ";"@,
        ChainlinkFieldV::Static { name: _, ty } => "() -> &'static "@ + ty + ";"@,
        ChainlinkFieldV::Fn { sig } => sig + ";"@,
    }
}

/// The trait body is the concatenation of exactly the member
/// declarations, in order.
proof fn lemma_cat_members_is_lines(ms: Seq<ChainlinkFieldV>)
    ensures
        cat_members(ms) == cat_funcs(ms.map_values(|m: ChainlinkFieldV| render_member(m))),
    decreases ms.len(),
{
    let f = |m: ChainlinkFieldV| render_member(m);
    if ms.len() > 0 {
        lemma_cat_members_is_lines(ms.drop_first());
        assert(ms.map_values(f).drop_first() =~= ms.drop_first().map_values(f));
        assert(ms.map_values(f)[0] == render_member(ms[0]));
        assert(cat_members(ms) =~= cat_funcs(ms.map_values(f)));
    } else {
        assert(ms.map_values(f).len() == 0);
        assert(cat_members(ms) =~= cat_funcs(ms.map_values(f)));
    }
}

/// Law: for a contract with members `m1..mn`, the synthesized
/// interface exposes exactly those members — one declaration per
/// member, in order, each built from that member's own name and
/// signature, and the emitted trait body is the concatenation of
/// exactly those declarations, so there is no further method beside
/// them.
pub proof fn lemma_interface_members_exact(c: ChainlinkV)
    ensures
        interface_methods(c).len() == c.fields.len(),
        forall|k: int|
            0 <= k < c.fields.len() ==> interface_methods(c)[k] == render_member(c.fields[k]),
        forall|k: int|
            0 <= k < c.fields.len() ==> #[trigger] render_member(c.fields[k]) == (if c.fields[k]
                is Fn {
                Seq::<char>::empty()
            } else {
                "fn "@ + member_name(c.fields[k])
            }) + member_sig_tail(c.fields[k]),
        cat_members(c.fields) == cat_funcs(interface_methods(c)),
{
    assert forall|k: int| 0 <= k < c.fields.len() implies #[trigger] render_member(c.fields[k])
        == (if c.fields[k] is Fn {
        Seq::<char>::empty()
    } else {
        "fn "@ + member_name(c.fields[k])
    }) + member_sig_tail(c.fields[k]) by {
        match c.fields[k] {
            ChainlinkFieldV::Const { name, ty } => {
                assert(render_member(c.fields[k]) =~= "fn "@ + name + ("(&self) -> &"@ + ty
                    + ";"@));
            },
            ChainlinkFieldV::Mut { name, ty } => {
                assert(render_member(c.fields[k]) =~= "fn "@ + name + ("(&mut self) -> &mut "@
                    + ty + ";"@));
            },
            ChainlinkFieldV::Static { name, ty } => {
                assert(render_member(c.fields[k]) =~= "fn "@ + name + ("() -> &'static "@ + ty
                    + ";"@));
            },
            ChainlinkFieldV::Fn { sig } => {
                assert(render_member(c.fields[k]) =~= Seq::<char>::empty() + (sig + ";"@));
            },
        }
    }
    lemma_cat_members_is_lines(c.fields);
}

/// A field's declared name.
pub open spec fn field_name(f: ChainFieldDataV) -> Seq<char> {
    match f {
        ChainFieldDataV::Const { vis: _, name, ty: _ } => name,
        ChainFieldDataV::Mut { name, ty: _ } => name,
        ChainFieldDataV::Static { name, ty: _, expr: _ } => name,
    }
}

/// A field tagged with `p` appears among the members of `p`'s
/// implementation block.
proof fn lemma_fields_for_contains(fs: Seq<ChainFieldV>, p: ChainPathV, k: int)
    requires
        0 <= k < fs.len(),
        path_in(fs[k].parents, p),
    ensures
        fields_for(fs, p).contains(fs[k].field),
    decreases k,
{
    if k == 0 {
        assert(fields_for(fs, p)[0] == fs[0].field);
    } else {
        lemma_fields_for_contains(fs.drop_first(), p, k - 1);
        assert(fs.drop_first()[k - 1] == fs[k]);
        let rest = fields_for(fs.drop_first(), p);
        let j = choose|j: int| 0 <= j < rest.len() && rest[j] == fs[k].field;
        if path_in(fs[0].parents, p) {
            assert(fields_for(fs, p)[j + 1] == fs[k].field);
        }
    }
}

/// The accessor list of one block, split around its `j`-th entry.
proof fn lemma_cat_accessors_split(fs: Seq<ChainFieldDataV>, j: int)
    requires
        0 <= j < fs.len(),
    ensures
        cat_accessors(fs) == cat_accessors(fs.take(j)) + ("    "@ + render_accessor(fs[j])
            + "\n"@) + cat_accessors(fs.skip(j + 1)),
    decreases j,
{
    if j == 0 {
        assert(fs.take(0).len() == 0);
        assert(fs.skip(1) =~= fs.drop_first());
        assert(cat_accessors(fs) =~= cat_accessors(fs.take(0)) + ("    "@ + render_accessor(
            fs[0],
        ) + "\n"@) + cat_accessors(fs.skip(1)));
    } else {
        lemma_cat_accessors_split(fs.drop_first(), j - 1);
        assert(fs.drop_first()[j - 1] == fs[j]);
        assert(fs.take(j)[0] == fs[0]);
        assert(fs.take(j).drop_first() =~= fs.drop_first().take(j - 1));
        assert(fs.skip(j + 1) =~= fs.drop_first().skip(j));
        assert(cat_accessors(fs) =~= cat_accessors(fs.take(j)) + ("    "@ + render_accessor(
            fs[j],
        ) + "\n"@) + cat_accessors(fs.skip(j + 1)));
    }
}

/// Law: a value or mutable field tagged with a contract is backed by
/// the entity's own storage. The record stores a slot under the
/// field's name; the accessor synthesized in that contract's
/// implementation block carries the same name and returns a direct
/// reference to `self.<name>` — that very slot. Every accessor any
/// contract gets for this field delegates to the same slot, so a
/// write through a mutable accessor is observed by a subsequent read
/// through any handle.
pub proof fn lemma_accessor_backed_by_storage(e: ChainV, k: int, t: int)
    requires
        0 <= k < e.fields.len(),
        0 <= t < e.fields[k].parents.len(),
    ensures
        ({
            let block = fields_for(e.fields, e.fields[k].parents[t]);
            exists|j: int|
                0 <= j < block.len() && block[j] == e.fields[k].field && cat_accessors(block)
                    == cat_accessors(block.take(j)) + ("    "@ + render_accessor(e.fields[k].field)
                    + "\n"@) + cat_accessors(block.skip(j + 1))
        }),
        e.fields[k].field matches ChainFieldDataV::Const { vis, name, ty } ==> record_line(
            e.fields[k].field,
        ) == "    "@ + crate::synth::vis_prefix(vis) + name + ": "@ + ty + ",\n"@
            && render_accessor(e.fields[k].field) == "fn "@ + name + "(&self) -> &"@ + ty
            + " {\n        &self."@ + name + "\n    }"@,
        e.fields[k].field matches ChainFieldDataV::Mut { name, ty } ==> record_line(
            e.fields[k].field,
        ) == "    "@ + name + ": "@ + ty + ",\n"@ && render_accessor(e.fields[k].field) == "fn "@
            + name + "(&mut self) -> &mut "@ + ty + " {\n        &mut self."@ + name + "\n    }"@,
{
    assert(path_in(e.fields[k].parents, e.fields[k].parents[t]));
    lemma_fields_for_contains(e.fields, e.fields[k].parents[t], k);
    let block = fields_for(e.fields, e.fields[k].parents[t]);
    let j = choose|j: int| 0 <= j < block.len() && block[j] == e.fields[k].field;
    lemma_cat_accessors_split(block, j);
}

/// Every tag of every field appears among the entity's collected tags.
proof fn lemma_all_tags_contains(fs: Seq<ChainFieldV>, k: int, t: int)
    requires
        0 <= k < fs.len(),
        0 <= t < fs[k].parents.len(),
    ensures
        path_in(all_tags(fs), fs[k].parents[t]),
    decreases k,
{
    if k == 0 {
        assert(all_tags(fs)[t] == fs[0].parents[t]);
    } else {
        lemma_all_tags_contains(fs.drop_first(), k - 1, t);
        assert(fs.drop_first()[k - 1] == fs[k]);
        let rest = all_tags(fs.drop_first());
        let j = choose|j: int| 0 <= j < rest.len() && rest[j] == fs[k].parents[t];
        assert(all_tags(fs)[fs[0].parents.len() + j] == fs[k].parents[t]);
    }
}

/// Deduplication keeps every path it is given or has seen.
proof fn lemma_dedup_keeps(ps: Seq<ChainPathV>, seen: Seq<ChainPathV>, p: ChainPathV)
    requires
        path_in(ps, p) || path_in(seen, p),
    ensures
        path_in(dedup_acc(ps, seen), p),
    decreases ps.len(),
{
    if ps.len() == 0 {
    } else {
        let rest = ps.drop_first();
        if path_in(seen, ps[0]) {
            if path_in(ps, p) && !path_in(seen, p) {
                let j = choose|j: int| 0 <= j < ps.len() && ps[j] == p;
                if j == 0 {
                    assert(path_in(seen, p));
                } else {
                    assert(rest[j - 1] == p);
                }
            }
            lemma_dedup_keeps(rest, seen, p);
        } else {
            let seen2 = seen.push(ps[0]);
            if path_in(seen, p) {
                let j = choose|j: int| 0 <= j < seen.len() && seen[j] == p;
                assert(seen2[j] == p);
            } else {
                let j = choose|j: int| 0 <= j < ps.len() && ps[j] == p;
                if j == 0 {
                    assert(seen2[seen.len() as int] == p);
                } else {
                    assert(rest[j - 1] == p);
                }
            }
            lemma_dedup_keeps(rest, seen2, p);
        }
    }
}

/// Deduplication of distinct seen paths yields distinct paths.
proof fn lemma_dedup_distinct(ps: Seq<ChainPathV>, seen: Seq<ChainPathV>)
    requires
        forall|i: int, j: int| 0 <= i < j < seen.len() ==> seen[i] != seen[j],
    ensures
        forall|i: int, j: int|
            0 <= i < j < dedup_acc(ps, seen).len() ==> dedup_acc(ps, seen)[i] != dedup_acc(
                ps,
                seen,
            )[j],
    decreases ps.len(),
{
    if ps.len() > 0 {
        if path_in(seen, ps[0]) {
            lemma_dedup_distinct(ps.drop_first(), seen);
            assert(dedup_acc(ps, seen) == dedup_acc(ps.drop_first(), seen));
        } else {
            let seen2 = seen.push(ps[0]);
            assert forall|i: int, j: int| 0 <= i < j < seen2.len() implies seen2[i] != seen2[j] by {
                if j < seen.len() {
                } else {
                    assert(seen2[j] == ps[0]);
                    assert(!path_in(seen, ps[0]));
                    assert(seen2[i] == seen[i]);
                }
            }
            lemma_dedup_distinct(ps.drop_first(), seen2);
            assert(dedup_acc(ps, seen) == dedup_acc(ps.drop_first(), seen2));
        }
    } else {
        assert(dedup_acc(ps, seen) == seen);
    }
}

/// Law: an entity's record satisfies every contract its fields are
/// tagged with, all at once: for each tag of each field there is an
/// implementation block for that contract — and exactly one, since
/// the synthesized list of contracts holds no duplicates.
pub proof fn lemma_every_tagged_contract_implemented(e: ChainV, k: int, t: int)
    requires
        0 <= k < e.fields.len(),
        0 <= t < e.fields[k].parents.len(),
    ensures
        path_in(distinct_parents(e.fields), e.fields[k].parents[t]),
        forall|i: int, j: int|
            0 <= i < j < distinct_parents(e.fields).len() ==> distinct_parents(e.fields)[i]
                != distinct_parents(e.fields)[j],
{
    lemma_all_tags_contains(e.fields, k, t);
    lemma_dedup_keeps(all_tags(e.fields), Seq::empty(), e.fields[k].parents[t]);
    lemma_dedup_distinct(all_tags(e.fields), Seq::empty());
}

/// Law: a static accessor is a function of the field's declaration
/// alone — name, type and constant expression. Its signature takes no
/// receiver and its body mentions no instance state, and the field
/// contributes no storage slot to the record; so whatever entity the
/// block is synthesized for, and whatever instance the accessor is
/// invoked through, the text — and hence the value it evaluates —
/// is the same.
pub proof fn lemma_static_accessor_instance_independent(
    f: ChainFieldDataV,
    name: Seq<char>,
    ty: Seq<char>,
    expr: Seq<char>,
)
    requires
        f == (ChainFieldDataV::Static { name, ty, expr }),
    ensures
        render_accessor(f) == "fn "@ + name + "() -> &'static "@ + ty + " {\n        &"@ + expr
            + "\n    }"@,
        record_line(f) == Seq::<char>::empty(),
{
}

/// A contract-tagged value field with explicit visibility is found.
proof fn lemma_vis_violation_found(fs: Seq<ChainFieldV>, k: int)
    requires
        0 <= k < fs.len(),
        fs[k].field matches ChainFieldDataV::Const {
            vis: VisibilityV::Explicit { text: _, at: _ },
            name: _,
            ty: _,
        },
        fs[k].parents.len() > 0,
    ensures
        spec_vis_violation(fs) is Some,
    decreases k,
{
    if k > 0 {
        match fs[0].field {
            ChainFieldDataV::Const { vis, name: _, ty: _ } => {
                match vis {
                    VisibilityV::Explicit { text: _, at: _ } => {
                        if fs[0].parents.len() > 0 {
                        } else {
                            assert(fs.drop_first()[k - 1] == fs[k]);
                            lemma_vis_violation_found(fs.drop_first(), k - 1);
                        }
                    },
                    VisibilityV::Inherited => {
                        assert(fs.drop_first()[k - 1] == fs[k]);
                        lemma_vis_violation_found(fs.drop_first(), k - 1);
                    },
                }
            },
            _ => {
                assert(fs.drop_first()[k - 1] == fs[k]);
                lemma_vis_violation_found(fs.drop_first(), k - 1);
            },
        }
    }
}

/// Law: a value field with an explicit (non-default) visibility marker
/// that is also contract-tagged is always rejected at generation time:
/// whatever else the declaration holds, its generation yields a
/// visibility diagnostic and no output at all.
pub proof fn lemma_tagged_public_const_rejected(s: Seq<char>, e: ChainV, k: int)
    requires
        spec_parse_chain(s) == Ok::<ChainV, ParseErrorV>(e),
        0 <= k < e.fields.len(),
        e.fields[k].field matches ChainFieldDataV::Const {
            vis: VisibilityV::Explicit { text: _, at: _ },
            name: _,
            ty: _,
        },
        e.fields[k].parents.len() > 0,
    ensures
        chain_output(s) matches Err(ev) && ev.kind == ErrorKind::Visibility,
{
    lemma_vis_violation_found(e.fields, k);
}

} // verus!
