//! The schema parser: recursive-descent over the declaration text.
//!
//! Each grammar production comes as a pair: a total specification
//! function over `Seq<char>` that defines exactly what is parsed (or
//! which diagnostic is raised), and an executable twin whose contract
//! says it returns precisely the specification's result. Productions
//! return the parsed value together with the position where parsing
//! stopped; a diagnostic carries the offset of the offending text.
//!
//! Some specification branches guard positions that the scanners can
//! in fact never produce (a sub-scan running backwards); they exist so
//! the definitions visibly terminate, and the executable twins prove
//! from the scanners' contracts that those branches are never taken.

use vstd::prelude::*;

use crate::ast::{
    wf_chain, wf_chainlink, wf_fields, wf_impl_chains, wf_path, wf_use_chains, Chain, ChainField,
    ChainFieldData, ChainFieldDataV, ChainFieldV, Chainlink, ChainlinkField, ChainlinkFieldV,
    ChainlinkV, ChainPath, ChainPathV, ChainV, ErrorKind, ImplChain, ImplChains, ImplChainsV,
    ImplChainV, ParseError, ParseErrorV, UseChains, UseChainsV, Visibility, VisibilityV,
};
use crate::scan::{
    ident_end, ident_end_at, is_ident_char, region_eq_str, scan_close, scan_close_at, scan_raw,
    scan_raw_at, skip_ws, skip_ws_at, str_chars, sub_string, trim_end, trim_end_at, ScanMode,
};

verus! {

// ---------------------------------------------------------------------------
// Plumbing
// ---------------------------------------------------------------------------

/// The view of one parsing step: the parsed value's view and the
/// stopping position, or the diagnostic.
pub open spec fn step_view<T: DeepView>(r: Result<(T, usize), ParseError>) -> Result<
    (T::V, int),
    ParseErrorV,
> {
    match r {
        Ok((v, j)) => Ok((v.deep_view(), j as int)),
        Err(e) => Err(e.deep_view()),
    }
}

/// The view of a whole-declaration parse: the declaration's view, or
/// the diagnostic.
pub open spec fn decl_view<T: DeepView>(r: Result<T, ParseError>) -> Result<T::V, ParseErrorV> {
    match r {
        Ok(v) => Ok(v.deep_view()),
        Err(e) => Err(e.deep_view()),
    }
}

/// A syntax diagnostic at `pos`.
pub open spec fn syn_err(pos: int) -> ParseErrorV {
    ParseErrorV { kind: ErrorKind::Syntax, pos }
}

/// A visibility diagnostic at `pos`.
pub open spec fn vis_err(pos: int) -> ParseErrorV {
    ParseErrorV { kind: ErrorKind::Visibility, pos }
}

/// A default-body diagnostic at `pos`.
pub open spec fn body_err(pos: int) -> ParseErrorV {
    ParseErrorV { kind: ErrorKind::DefaultBody, pos }
}

// ---------------------------------------------------------------------------
// Paths
// ---------------------------------------------------------------------------

/// Parses `ident ('::' ident)*` starting at `i`, appending the segment
/// texts to `acc`; stops right after the last identifier.
pub open spec fn spec_path_segs(s: Seq<char>, i: int, acc: Seq<Seq<char>>) -> Result<
    (Seq<Seq<char>>, int),
    ParseErrorV,
>
    decreases s.len() - i,
{
    let e = ident_end(s, i);
    if !(0 <= i < e <= s.len()) {
        Err(syn_err(i))
    } else {
        let acc2 = acc.push(s.subrange(i, e));
        let j = skip_ws(s, e);
        if e <= j && j + 1 < s.len() && s[j] == ':' && s[j + 1] == ':' {
            let k = skip_ws(s, j + 2);
            if i < k <= s.len() {
                spec_path_segs(s, k, acc2)
            } else {
                Err(syn_err(k))
            }
        } else {
            Ok((acc2, e))
        }
    }
}

/// Parses a contract path: segments, then generic arguments attached
/// directly (no blank) to the last segment, kept raw with their
/// brackets.
pub open spec fn spec_parse_path(s: Seq<char>, i: int) -> Result<(ChainPathV, int), ParseErrorV> {
    match spec_path_segs(s, i, Seq::empty()) {
        Err(e) => Err(e),
        Ok((segs, e)) => {
            if e < s.len() && s[e] == '<' {
                let k = scan_close(s, e + 1, ScanMode::Generic, 1);
                if e + 1 < k <= s.len() && s[k - 1] == '>' {
                    Ok((ChainPathV { segments: segs, args: s.subrange(e, k) }, k))
                } else {
                    Err(syn_err(e))
                }
            } else {
                Ok((ChainPathV { segments: segs, args: Seq::empty() }, e))
            }
        },
    }
}

/// Executable twin of [`spec_path_segs`].
fn path_segs(s: &Vec<char>, i: usize, acc: Vec<String>) -> (r: Result<
    (Vec<String>, usize),
    ParseError,
>)
    requires
        i <= s@.len(),
    ensures
        step_view(r) == spec_path_segs(s@, i as int, acc.deep_view()),
        r matches Ok((segs, j)) ==> i < j <= s@.len() && segs@.len() > 0,
    decreases s@.len() - i,
{
    let e = ident_end_at(s, i);
    if e == i {
        return Err(ParseError { kind: ErrorKind::Syntax, pos: i });
    }
    let seg = sub_string(s, i, e);
    let mut acc2 = acc;
    acc2.push(seg);
    proof {
        assert(acc2.deep_view() =~= acc.deep_view().push(s@.subrange(i as int, e as int)));
    }
    let j = skip_ws_at(s, e);
    if j < s.len() && j + 1 < s.len() && s[j] == ':' && s[j + 1] == ':' {
        let k = skip_ws_at(s, j + 2);
        path_segs(s, k, acc2)
    } else {
        Ok((acc2, e))
    }
}

/// Executable twin of [`spec_parse_path`].
pub fn parse_path(s: &Vec<char>, i: usize) -> (r: Result<(ChainPath, usize), ParseError>)
    requires
        i <= s@.len(),
    ensures
        step_view(r) == spec_parse_path(s@, i as int),
        r matches Ok((p, j)) ==> i < j <= s@.len() && wf_path(p.deep_view()),
{
    let empty: Vec<String> = Vec::new();
    proof {
        assert(empty.deep_view() =~= Seq::<Seq<char>>::empty());
    }
    let (segs, e) = match path_segs(s, i, empty) {
        Ok(p) => p,
        Err(er) => {
            return Err(er);
        },
    };
    if e < s.len() && s[e] == '<' {
        let k = scan_close_at(s, e + 1, ScanMode::Generic, 1);
        if e + 1 < k && k - 1 < s.len() && s[k - 1] == '>' {
            let args = sub_string(s, e, k);
            Ok((ChainPath { segments: segs, args }, k))
        } else {
            Err(ParseError { kind: ErrorKind::Syntax, pos: e })
        }
    } else {
        let args = sub_string(s, e, e);
        proof {
            assert(s@.subrange(e as int, e as int) =~= Seq::<char>::empty());
        }
        Ok((ChainPath { segments: segs, args }, e))
    }
}

// ---------------------------------------------------------------------------
// Generic-parameter lists
// ---------------------------------------------------------------------------

/// Parses the items of a generic-parameter list, starting just past
/// the opening `<`; stops just past the closing `>`. Items are raw
/// texts, trimmed, split at top-level commas; a trailing comma is
/// accepted.
pub open spec fn spec_generics_items(s: Seq<char>, start: int, acc: Seq<Seq<char>>) -> Result<
    (Seq<Seq<char>>, int),
    ParseErrorV,
>
    decreases s.len() - start,
{
    let j = skip_ws(s, start);
    if !(0 <= start <= j < s.len()) {
        Err(syn_err(s.len() as int))
    } else if s[j] == '>' {
        Ok((acc, j + 1))
    } else {
        let p = scan_raw(s, j, ScanMode::Generic, 0);
        if p >= s.len() {
            Err(syn_err(s.len() as int))
        } else if p <= j {
            Err(syn_err(j))
        } else {
            let acc2 = acc.push(s.subrange(j, trim_end(s, j, p)));
            if s[p] == ',' {
                spec_generics_items(s, p + 1, acc2)
            } else {
                Ok((acc2, p + 1))
            }
        }
    }
}

/// Executable twin of [`spec_generics_items`].
pub fn generics_items(s: &Vec<char>, start: usize, acc: Vec<String>) -> (r: Result<
    (Vec<String>, usize),
    ParseError,
>)
    requires
        start <= s@.len(),
    ensures
        step_view(r) == spec_generics_items(s@, start as int, acc.deep_view()),
        r matches Ok((_, j)) ==> start < j <= s@.len(),
    decreases s@.len() - start,
{
    let j = skip_ws_at(s, start);
    if j >= s.len() {
        return Err(ParseError { kind: ErrorKind::Syntax, pos: s.len() });
    }
    if s[j] == '>' {
        return Ok((acc, j + 1));
    }
    let p = scan_raw_at(s, j, ScanMode::Generic, 0);
    if p >= s.len() {
        return Err(ParseError { kind: ErrorKind::Syntax, pos: s.len() });
    }
    if p <= j {
        return Err(ParseError { kind: ErrorKind::Syntax, pos: j });
    }
    let t = trim_end_at(s, j, p);
    let piece = sub_string(s, j, t);
    let mut acc2 = acc;
    acc2.push(piece);
    proof {
        assert(acc2.deep_view() =~= acc.deep_view().push(
            s@.subrange(j as int, trim_end(s@, j as int, p as int)),
        ));
    }
    if s[p] == ',' {
        generics_items(s, p + 1, acc2)
    } else {
        Ok((acc2, p + 1))
    }
}

// ---------------------------------------------------------------------------
// `name ':' type` tails
// ---------------------------------------------------------------------------

/// Parses `name ':' type` after an accessor keyword, the type running
/// to the first stopping character of `mode` at depth zero; stops at
/// that character. The type text is trimmed and must be non-empty.
pub open spec fn spec_name_ty(s: Seq<char>, i: int, mode: ScanMode) -> Result<
    ((Seq<char>, Seq<char>), int),
    ParseErrorV,
> {
    let j = skip_ws(s, i);
    let e = ident_end(s, j);
    if !(0 <= j < e <= s.len()) {
        Err(syn_err(j))
    } else {
        let name = s.subrange(j, e);
        let k = skip_ws(s, e);
        if !(k < s.len() && s[k] == ':') {
            Err(syn_err(k))
        } else {
            let m = skip_ws(s, k + 1);
            let p = scan_raw(s, m, mode, 0);
            let t = trim_end(s, m, p);
            if !(0 <= m < t <= p <= s.len()) {
                Err(syn_err(m))
            } else {
                Ok(((name, s.subrange(m, t)), p))
            }
        }
    }
}

/// Executable twin of [`spec_name_ty`].
fn name_ty(s: &Vec<char>, i: usize, mode: ScanMode) -> (r: Result<
    ((String, String), usize),
    ParseError,
>)
    requires
        i <= s@.len(),
    ensures
        step_view(r) == spec_name_ty(s@, i as int, mode),
        r matches Ok((_, p)) ==> i < p <= s@.len(),
{
    let j = skip_ws_at(s, i);
    let e = ident_end_at(s, j);
    if e == j {
        return Err(ParseError { kind: ErrorKind::Syntax, pos: j });
    }
    let name = sub_string(s, j, e);
    let k = skip_ws_at(s, e);
    if !(k < s.len() && s[k] == ':') {
        return Err(ParseError { kind: ErrorKind::Syntax, pos: k });
    }
    let m = skip_ws_at(s, k + 1);
    let p = scan_raw_at(s, m, mode, 0);
    let t = trim_end_at(s, m, p);
    if m >= t {
        return Err(ParseError { kind: ErrorKind::Syntax, pos: m });
    }
    let ty = sub_string(s, m, t);
    Ok(((name, ty), p))
}

// ---------------------------------------------------------------------------
// Contract members
// ---------------------------------------------------------------------------

/// Parses one contract member at `i` (no leading whitespace): `const
/// name: type`, `mut name: type`, `static name: type`, or a free-form
/// `fn` signature, which must not carry a body. Stops at the member's
/// terminator without consuming it.
pub open spec fn spec_parse_member(s: Seq<char>, i: int) -> Result<
    (ChainlinkFieldV, int),
    ParseErrorV,
> {
    let e = ident_end(s, i);
    if !(0 <= i < e <= s.len()) {
        Err(syn_err(i))
    } else {
        let w = s.subrange(i, e);
        if w == "const"@ {
            match spec_name_ty(s, e, ScanMode::Ty) {
                Err(er) => Err(er),
                Ok(((name, ty), p)) => Ok((ChainlinkFieldV::Const { name, ty }, p)),
            }
        } else if w == "mut"@ {
            match spec_name_ty(s, e, ScanMode::Ty) {
                Err(er) => Err(er),
                Ok(((name, ty), p)) => Ok((ChainlinkFieldV::Mut { name, ty }, p)),
            }
        } else if w == "static"@ {
            match spec_name_ty(s, e, ScanMode::Ty) {
                Err(er) => Err(er),
                Ok(((name, ty), p)) => Ok((ChainlinkFieldV::Static { name, ty }, p)),
            }
        } else if w == "fn"@ {
            let p = scan_raw(s, i, ScanMode::Sig, 0);
            if !(i < p < s.len()) {
                Err(syn_err(s.len() as int))
            } else if s[p] == '{' {
                Err(body_err(p))
            } else if s[p] == '}' {
                Err(syn_err(p))
            } else {
                Ok((ChainlinkFieldV::Fn { sig: s.subrange(i, trim_end(s, i, p)) }, p))
            }
        } else {
            Err(syn_err(i))
        }
    }
}

/// Executable twin of [`spec_parse_member`].
pub fn parse_member(s: &Vec<char>, i: usize) -> (r: Result<(ChainlinkField, usize), ParseError>)
    requires
        i <= s@.len(),
    ensures
        step_view(r) == spec_parse_member(s@, i as int),
        r matches Ok((_, p)) ==> i < p <= s@.len(),
{
    let e = ident_end_at(s, i);
    if e == i {
        return Err(ParseError { kind: ErrorKind::Syntax, pos: i });
    }
    if region_eq_str(s, i, e, "const") {
        match name_ty(s, e, ScanMode::Ty) {
            Err(er) => Err(er),
            Ok(((name, ty), p)) => Ok((ChainlinkField::Const(name, ty), p)),
        }
    } else if region_eq_str(s, i, e, "mut") {
        match name_ty(s, e, ScanMode::Ty) {
            Err(er) => Err(er),
            Ok(((name, ty), p)) => Ok((ChainlinkField::Mut(name, ty), p)),
        }
    } else if region_eq_str(s, i, e, "static") {
        match name_ty(s, e, ScanMode::Ty) {
            Err(er) => Err(er),
            Ok(((name, ty), p)) => Ok((ChainlinkField::Static(name, ty), p)),
        }
    } else if region_eq_str(s, i, e, "fn") {
        let p = scan_raw_at(s, i, ScanMode::Sig, 0);
        proof {
            assert(is_ident_char(s@[i as int]));
            assert(p != i);
        }
        if p >= s.len() {
            return Err(ParseError { kind: ErrorKind::Syntax, pos: s.len() });
        }
        if s[p] == '{' {
            return Err(ParseError { kind: ErrorKind::DefaultBody, pos: p });
        }
        if s[p] == '}' {
            return Err(ParseError { kind: ErrorKind::Syntax, pos: p });
        }
        let t = trim_end_at(s, i, p);
        let sig = sub_string(s, i, t);
        Ok((ChainlinkField::Fn(sig), p))
    } else {
        Err(ParseError { kind: ErrorKind::Syntax, pos: i })
    }
}

/// Parses the members of a contract block, starting just past the
/// opening `{`; members are separated by `;`, a trailing `;` is
/// accepted, and the block ends at the matching `}`.
pub open spec fn spec_members(s: Seq<char>, start: int, acc: Seq<ChainlinkFieldV>) -> Result<
    (Seq<ChainlinkFieldV>, int),
    ParseErrorV,
>
    decreases s.len() - start,
{
    let j = skip_ws(s, start);
    if !(0 <= start <= j < s.len()) {
        Err(syn_err(s.len() as int))
    } else if s[j] == '}' {
        Ok((acc, j + 1))
    } else {
        match spec_parse_member(s, j) {
            Err(er) => Err(er),
            Ok((m, p)) => {
                let acc2 = acc.push(m);
                if !(j < p <= s.len()) {
                    Err(syn_err(j))
                } else if p < s.len() && s[p] == ';' {
                    spec_members(s, p + 1, acc2)
                } else if p < s.len() && s[p] == '}' {
                    Ok((acc2, p + 1))
                } else {
                    Err(syn_err(p))
                }
            },
        }
    }
}

/// Executable twin of [`spec_members`].
pub fn parse_members(s: &Vec<char>, start: usize, acc: Vec<ChainlinkField>) -> (r: Result<
    (Vec<ChainlinkField>, usize),
    ParseError,
>)
    requires
        start <= s@.len(),
    ensures
        step_view(r) == spec_members(s@, start as int, acc.deep_view()),
        r matches Ok((_, j)) ==> start < j <= s@.len(),
    decreases s@.len() - start,
{
    let j = skip_ws_at(s, start);
    if j >= s.len() {
        return Err(ParseError { kind: ErrorKind::Syntax, pos: s.len() });
    }
    if s[j] == '}' {
        return Ok((acc, j + 1));
    }
    match parse_member(s, j) {
        Err(er) => Err(er),
        Ok((m, p)) => {
            let ghost mv = m.deep_view();
            let mut acc2 = acc;
            acc2.push(m);
            proof {
                assert(acc2.deep_view() =~= acc.deep_view().push(mv));
            }
            if p < s.len() && s[p] == ';' {
                parse_members(s, p + 1, acc2)
            } else if p < s.len() && s[p] == '}' {
                Ok((acc2, p + 1))
            } else {
                Err(ParseError { kind: ErrorKind::Syntax, pos: p })
            }
        },
    }
}

// ---------------------------------------------------------------------------
// Parent-contract lists
// ---------------------------------------------------------------------------

/// Parses `path ('+' path)*` starting at the first path.
pub open spec fn spec_parents_items(s: Seq<char>, i: int, acc: Seq<ChainPathV>) -> Result<
    (Seq<ChainPathV>, int),
    ParseErrorV,
>
    decreases s.len() - i,
{
    match spec_parse_path(s, i) {
        Err(er) => Err(er),
        Ok((p, k)) => {
            let acc2 = acc.push(p);
            let j = skip_ws(s, k);
            if k <= j && j < s.len() && s[j] == '+' {
                let m = skip_ws(s, j + 1);
                if i < m <= s.len() {
                    spec_parents_items(s, m, acc2)
                } else {
                    Err(syn_err(m))
                }
            } else {
                Ok((acc2, k))
            }
        },
    }
}

/// Parses an optional parent-contract list: nothing, or `':' path ('+'
/// path)*`.
pub open spec fn spec_parse_parents(s: Seq<char>, i: int) -> Result<
    (Seq<ChainPathV>, int),
    ParseErrorV,
> {
    let j = skip_ws(s, i);
    if j < s.len() && s[j] == ':' {
        spec_parents_items(s, skip_ws(s, j + 1), Seq::empty())
    } else {
        Ok((Seq::empty(), i))
    }
}

/// Executable twin of [`spec_parents_items`].
fn parents_items(s: &Vec<char>, i: usize, acc: Vec<ChainPath>) -> (r: Result<
    (Vec<ChainPath>, usize),
    ParseError,
>)
    requires
        i <= s@.len(),
        forall|t: int| 0 <= t < acc.deep_view().len() ==> wf_path(#[trigger] acc.deep_view()[t]),
    ensures
        step_view(r) == spec_parents_items(s@, i as int, acc.deep_view()),
        r matches Ok((ps, j)) ==> i < j <= s@.len() && (forall|t: int|
            0 <= t < ps.deep_view().len() ==> wf_path(#[trigger] ps.deep_view()[t])),
    decreases s@.len() - i,
{
    match parse_path(s, i) {
        Err(er) => Err(er),
        Ok((p, k)) => {
            let ghost pv = p.deep_view();
            let mut acc2 = acc;
            acc2.push(p);
            proof {
                assert(acc2.deep_view() =~= acc.deep_view().push(pv));
            }
            let j = skip_ws_at(s, k);
            if j < s.len() && s[j] == '+' {
                let m = skip_ws_at(s, j + 1);
                parents_items(s, m, acc2)
            } else {
                Ok((acc2, k))
            }
        },
    }
}

/// Executable twin of [`spec_parse_parents`].
pub fn parse_parents(s: &Vec<char>, i: usize) -> (r: Result<(Vec<ChainPath>, usize), ParseError>)
    requires
        i <= s@.len(),
    ensures
        step_view(r) == spec_parse_parents(s@, i as int),
        r matches Ok((ps, j)) ==> i <= j <= s@.len() && (forall|t: int|
            0 <= t < ps.deep_view().len() ==> wf_path(#[trigger] ps.deep_view()[t])),
{
    let j = skip_ws_at(s, i);
    if j < s.len() && s[j] == ':' {
        let m = skip_ws_at(s, j + 1);
        let empty: Vec<ChainPath> = Vec::new();
        proof {
            assert(empty.deep_view() =~= Seq::<ChainPathV>::empty());
        }
        parents_items(s, m, empty)
    } else {
        let empty: Vec<ChainPath> = Vec::new();
        proof {
            assert(empty.deep_view() =~= Seq::<ChainPathV>::empty());
        }
        Ok((empty, i))
    }
}

// ---------------------------------------------------------------------------
// Contract declarations
// ---------------------------------------------------------------------------

/// Parses a whole contract declaration:
/// `name [<generics>] [':' parent ('+' parent)*] '=>' '{' members '}'`,
/// with nothing but whitespace after it.
pub open spec fn spec_parse_chainlink(s: Seq<char>) -> Result<ChainlinkV, ParseErrorV> {
    let i = skip_ws(s, 0);
    let e = ident_end(s, i);
    if !(0 <= i < e <= s.len()) {
        Err(syn_err(i))
    } else {
        let name = s.subrange(i, e);
        let g = skip_ws(s, e);
        let gen_res = if g < s.len() && s[g] == '<' {
            spec_generics_items(s, g + 1, Seq::empty())
        } else {
            Ok((Seq::empty(), g))
        };
        match gen_res {
            Err(er) => Err(er),
            Ok((gens, g2)) => match spec_parse_parents(s, g2) {
                Err(er) => Err(er),
                Ok((pars, q)) => {
                    let a = skip_ws(s, q);
                    if !(a + 1 < s.len() && s[a] == '=' && s[a + 1] == '>') {
                        Err(syn_err(a))
                    } else {
                        let b = skip_ws(s, a + 2);
                        if !(b < s.len() && s[b] == '{') {
                            Err(syn_err(b))
                        } else {
                            match spec_members(s, b + 1, Seq::empty()) {
                                Err(er) => Err(er),
                                Ok((fields, q2)) => {
                                    let r = skip_ws(s, q2);
                                    if r == s.len() {
                                        Ok(
                                            ChainlinkV {
                                                name,
                                                generics: gens,
                                                parents: pars,
                                                fields,
                                            },
                                        )
                                    } else {
                                        Err(syn_err(r))
                                    }
                                },
                            }
                        }
                    }
                },
            },
        }
    }
}

impl Chainlink {
    /// Parses one contract declaration, returning its description or
    /// the first diagnostic.
    pub fn parse(src: &str) -> (r: Result<Chainlink, ParseError>)
        ensures
            decl_view(r) == spec_parse_chainlink(src@),
            r matches Ok(c) ==> wf_chainlink(c.deep_view()),
    {
        let s = str_chars(src);
        let i = skip_ws_at(&s, 0);
        let e = ident_end_at(&s, i);
        if e == i {
            return Err(ParseError { kind: ErrorKind::Syntax, pos: i });
        }
        let name = sub_string(&s, i, e);
        let g = skip_ws_at(&s, e);
        let empty: Vec<String> = Vec::new();
        proof {
            assert(empty.deep_view() =~= Seq::<Seq<char>>::empty());
        }
        let gen_res = if g < s.len() && s[g] == '<' {
            generics_items(&s, g + 1, empty)
        } else {
            Ok((empty, g))
        };
        let (gens, g2) = match gen_res {
            Err(er) => {
                return Err(er);
            },
            Ok(p) => p,
        };
        let (pars, q) = match parse_parents(&s, g2) {
            Err(er) => {
                return Err(er);
            },
            Ok(p) => p,
        };
        let a = skip_ws_at(&s, q);
        if !(a < s.len() && a + 1 < s.len() && s[a] == '=' && s[a + 1] == '>') {
            return Err(ParseError { kind: ErrorKind::Syntax, pos: a });
        }
        let b = skip_ws_at(&s, a + 2);
        if !(b < s.len() && s[b] == '{') {
            return Err(ParseError { kind: ErrorKind::Syntax, pos: b });
        }
        let empty_m: Vec<ChainlinkField> = Vec::new();
        proof {
            assert(empty_m.deep_view() =~= Seq::<ChainlinkFieldV>::empty());
        }
        let (fields, q2) = match parse_members(&s, b + 1, empty_m) {
            Err(er) => {
                return Err(er);
            },
            Ok(p) => p,
        };
        let r2 = skip_ws_at(&s, q2);
        if r2 == s.len() {
            Ok(Chainlink { name, generics: gens, parents: pars, fields })
        } else {
            Err(ParseError { kind: ErrorKind::Syntax, pos: r2 })
        }
    }
}

// ---------------------------------------------------------------------------
// Entity fields
// ---------------------------------------------------------------------------

/// Parses the part of an entity field after its visibility: `const
/// name: type`, `mut name: type` (inherited visibility only), or
/// `static name: type = expr` (inherited visibility only; the
/// initializer is required). Stops at the field's terminator without
/// consuming it.
pub open spec fn spec_field_tail(s: Seq<char>, j: int, vis: VisibilityV) -> Result<
    (ChainFieldDataV, int),
    ParseErrorV,
> {
    let e = ident_end(s, j);
    if !(0 <= j < e <= s.len()) {
        Err(syn_err(j))
    } else {
        let w = s.subrange(j, e);
        if w == "const"@ {
            match spec_name_ty(s, e, ScanMode::FieldTy) {
                Err(er) => Err(er),
                Ok(((name, ty), p)) => {
                    if p < s.len() && s[p] == '=' {
                        Err(syn_err(p))
                    } else {
                        Ok((ChainFieldDataV::Const { vis, name, ty }, p))
                    }
                },
            }
        } else if w == "mut"@ {
            match vis {
                VisibilityV::Explicit { text: _, at } => Err(vis_err(at)),
                VisibilityV::Inherited => match spec_name_ty(s, e, ScanMode::FieldTy) {
                    Err(er) => Err(er),
                    Ok(((name, ty), p)) => {
                        if p < s.len() && s[p] == '=' {
                            Err(syn_err(p))
                        } else {
                            Ok((ChainFieldDataV::Mut { name, ty }, p))
                        }
                    },
                },
            }
        } else if w == "static"@ {
            match vis {
                VisibilityV::Explicit { text: _, at } => Err(vis_err(at)),
                VisibilityV::Inherited => match spec_name_ty(s, e, ScanMode::FieldTy) {
                    Err(er) => Err(er),
                    Ok(((name, ty), p)) => {
                        if !(p < s.len() && s[p] == '=') {
                            Err(syn_err(p))
                        } else {
                            let m = skip_ws(s, p + 1);
                            let q = scan_raw(s, m, ScanMode::Expr, 0);
                            let te = trim_end(s, m, q);
                            if !(0 <= m < te <= q <= s.len()) {
                                Err(syn_err(m))
                            } else {
                                Ok(
                                    (
                                        ChainFieldDataV::Static {
                                            name,
                                            ty,
                                            expr: s.subrange(m, te),
                                        },
                                        q,
                                    ),
                                )
                            }
                        }
                    },
                },
            }
        } else {
            Err(syn_err(j))
        }
    }
}

/// Parses one entity field's data at `i` (no leading whitespace): an
/// optional visibility marker (`pub`, optionally with a parenthesized
/// restriction), then the field itself.
pub open spec fn spec_field_data(s: Seq<char>, i: int) -> Result<
    (ChainFieldDataV, int),
    ParseErrorV,
> {
    let e = ident_end(s, i);
    if !(0 <= i < e <= s.len()) {
        Err(syn_err(i))
    } else if s.subrange(i, e) == "pub"@ {
        if e < s.len() && s[e] == '(' {
            let vend = scan_close(s, e + 1, ScanMode::Ty, 1);
            if !(e + 1 < vend <= s.len() && s[vend - 1] == ')') {
                Err(syn_err(e))
            } else {
                let vis = VisibilityV::Explicit { text: s.subrange(i, vend), at: i };
                spec_field_tail(s, skip_ws(s, vend), vis)
            }
        } else {
            let vis = VisibilityV::Explicit { text: s.subrange(i, e), at: i };
            spec_field_tail(s, skip_ws(s, e), vis)
        }
    } else {
        spec_field_tail(s, i, VisibilityV::Inherited)
    }
}

/// Executable twin of [`spec_field_tail`].
fn field_tail(s: &Vec<char>, j: usize, vis: Visibility) -> (r: Result<
    (ChainFieldData, usize),
    ParseError,
>)
    requires
        j <= s@.len(),
    ensures
        step_view(r) == spec_field_tail(s@, j as int, vis.deep_view()),
        r matches Ok((_, p)) ==> j < p <= s@.len(),
{
    let e = ident_end_at(s, j);
    if e == j {
        return Err(ParseError { kind: ErrorKind::Syntax, pos: j });
    }
    if region_eq_str(s, j, e, "const") {
        match name_ty(s, e, ScanMode::FieldTy) {
            Err(er) => Err(er),
            Ok(((name, ty), p)) => {
                if p < s.len() && s[p] == '=' {
                    Err(ParseError { kind: ErrorKind::Syntax, pos: p })
                } else {
                    Ok((ChainFieldData::Const(vis, name, ty), p))
                }
            },
        }
    } else if region_eq_str(s, j, e, "mut") {
        match vis {
            Visibility::Explicit(_, at) => Err(
                ParseError { kind: ErrorKind::Visibility, pos: at },
            ),
            Visibility::Inherited => match name_ty(s, e, ScanMode::FieldTy) {
                Err(er) => Err(er),
                Ok(((name, ty), p)) => {
                    if p < s.len() && s[p] == '=' {
                        Err(ParseError { kind: ErrorKind::Syntax, pos: p })
                    } else {
                        Ok((ChainFieldData::Mut(name, ty), p))
                    }
                },
            },
        }
    } else if region_eq_str(s, j, e, "static") {
        match vis {
            Visibility::Explicit(_, at) => Err(
                ParseError { kind: ErrorKind::Visibility, pos: at },
            ),
            Visibility::Inherited => match name_ty(s, e, ScanMode::FieldTy) {
                Err(er) => Err(er),
                Ok(((name, ty), p)) => {
                    if !(p < s.len() && s[p] == '=') {
                        Err(ParseError { kind: ErrorKind::Syntax, pos: p })
                    } else {
                        let m = skip_ws_at(s, p + 1);
                        let q = scan_raw_at(s, m, ScanMode::Expr, 0);
                        let te = trim_end_at(s, m, q);
                        if m >= te {
                            Err(ParseError { kind: ErrorKind::Syntax, pos: m })
                        } else {
                            let expr = sub_string(s, m, te);
                            Ok((ChainFieldData::Static(name, ty, expr), q))
                        }
                    }
                },
            },
        }
    } else {
        Err(ParseError { kind: ErrorKind::Syntax, pos: j })
    }
}

/// Executable twin of [`spec_field_data`].
pub fn parse_field_data(s: &Vec<char>, i: usize) -> (r: Result<(ChainFieldData, usize), ParseError>)
    requires
        i <= s@.len(),
    ensures
        step_view(r) == spec_field_data(s@, i as int),
        r matches Ok((_, p)) ==> i < p <= s@.len(),
{
    let e = ident_end_at(s, i);
    if e == i {
        return Err(ParseError { kind: ErrorKind::Syntax, pos: i });
    }
    if region_eq_str(s, i, e, "pub") {
        if e < s.len() && s[e] == '(' {
            let vend = scan_close_at(s, e + 1, ScanMode::Ty, 1);
            if !(e + 1 < vend && vend - 1 < s.len() && s[vend - 1] == ')') {
                return Err(ParseError { kind: ErrorKind::Syntax, pos: e });
            }
            let text = sub_string(s, i, vend);
            let j = skip_ws_at(s, vend);
            field_tail(s, j, Visibility::Explicit(text, i))
        } else {
            let text = sub_string(s, i, e);
            let j = skip_ws_at(s, e);
            field_tail(s, j, Visibility::Explicit(text, i))
        }
    } else {
        field_tail(s, i, Visibility::Inherited)
    }
}

/// Parses the contract tags of an entity field: `('@' path)*`.
pub open spec fn spec_field_tags(s: Seq<char>, i: int, acc: Seq<ChainPathV>) -> Result<
    (Seq<ChainPathV>, int),
    ParseErrorV,
>
    decreases s.len() - i,
{
    if 0 <= i < s.len() && s[i] == '@' {
        let j = skip_ws(s, i + 1);
        if !(i < j <= s.len()) {
            Err(syn_err(j))
        } else {
            match spec_parse_path(s, j) {
                Err(er) => Err(er),
                Ok((p, k)) => {
                    let m = skip_ws(s, k);
                    if !(i < m <= s.len()) {
                        Err(syn_err(m))
                    } else {
                        spec_field_tags(s, m, acc.push(p))
                    }
                },
            }
        }
    } else {
        Ok((acc, i))
    }
}

/// Executable twin of [`spec_field_tags`].
fn field_tags(s: &Vec<char>, i: usize, acc: Vec<ChainPath>) -> (r: Result<
    (Vec<ChainPath>, usize),
    ParseError,
>)
    requires
        i <= s@.len(),
        forall|t: int| 0 <= t < acc.deep_view().len() ==> wf_path(#[trigger] acc.deep_view()[t]),
    ensures
        step_view(r) == spec_field_tags(s@, i as int, acc.deep_view()),
        r matches Ok((ps, j)) ==> i <= j <= s@.len() && (forall|t: int|
            0 <= t < ps.deep_view().len() ==> wf_path(#[trigger] ps.deep_view()[t])),
    decreases s@.len() - i,
{
    if i < s.len() && s[i] == '@' {
        let j = skip_ws_at(s, i + 1);
        match parse_path(s, j) {
            Err(er) => Err(er),
            Ok((p, k)) => {
                let ghost pv = p.deep_view();
                let mut acc2 = acc;
                acc2.push(p);
                proof {
                    assert(acc2.deep_view() =~= acc.deep_view().push(pv));
                }
                let m = skip_ws_at(s, k);
                field_tags(s, m, acc2)
            },
        }
    } else {
        Ok((acc, i))
    }
}

/// Parses one entity field at `i` (no leading whitespace): its
/// contract tags, then its data. Stops at the field's terminator
/// without consuming it.
pub open spec fn spec_chain_field(s: Seq<char>, i: int) -> Result<(ChainFieldV, int), ParseErrorV> {
    match spec_field_tags(s, i, Seq::empty()) {
        Err(er) => Err(er),
        Ok((tags, j)) => {
            if !(i <= j <= s.len()) {
                Err(syn_err(j))
            } else {
                match spec_field_data(s, j) {
                    Err(er) => Err(er),
                    Ok((fd, p)) => Ok((ChainFieldV { parents: tags, field: fd }, p)),
                }
            }
        },
    }
}

/// Executable twin of [`spec_chain_field`].
pub fn parse_chain_field(s: &Vec<char>, i: usize) -> (r: Result<(ChainField, usize), ParseError>)
    requires
        i <= s@.len(),
    ensures
        step_view(r) == spec_chain_field(s@, i as int),
        r matches Ok((f, p)) ==> i < p <= s@.len() && (forall|t: int|
            0 <= t < f.deep_view().parents.len() ==> wf_path(
                #[trigger] f.deep_view().parents[t],
            )),
{
    let empty: Vec<ChainPath> = Vec::new();
    proof {
        assert(empty.deep_view() =~= Seq::<ChainPathV>::empty());
    }
    match field_tags(s, i, empty) {
        Err(er) => Err(er),
        Ok((tags, j)) => match parse_field_data(s, j) {
            Err(er) => Err(er),
            Ok((fd, p)) => Ok((ChainField { parents: tags, field: fd }, p)),
        },
    }
}

/// Parses the fields of an entity block, starting just past the
/// opening `{`; fields are separated by `;`, a trailing `;` is
/// accepted, and the block ends at the matching `}`.
pub open spec fn spec_chain_fields(s: Seq<char>, start: int, acc: Seq<ChainFieldV>) -> Result<
    (Seq<ChainFieldV>, int),
    ParseErrorV,
>
    decreases s.len() - start,
{
    let j = skip_ws(s, start);
    if !(0 <= start <= j < s.len()) {
        Err(syn_err(s.len() as int))
    } else if s[j] == '}' {
        Ok((acc, j + 1))
    } else {
        match spec_chain_field(s, j) {
            Err(er) => Err(er),
            Ok((f, p)) => {
                let acc2 = acc.push(f);
                if !(j < p <= s.len()) {
                    Err(syn_err(j))
                } else if p < s.len() && s[p] == ';' {
                    spec_chain_fields(s, p + 1, acc2)
                } else if p < s.len() && s[p] == '}' {
                    Ok((acc2, p + 1))
                } else {
                    Err(syn_err(p))
                }
            },
        }
    }
}

/// Executable twin of [`spec_chain_fields`].
pub fn parse_chain_fields(s: &Vec<char>, start: usize, acc: Vec<ChainField>) -> (r: Result<
    (Vec<ChainField>, usize),
    ParseError,
>)
    requires
        start <= s@.len(),
        wf_fields(acc.deep_view()),
    ensures
        step_view(r) == spec_chain_fields(s@, start as int, acc.deep_view()),
        r matches Ok((fs, j)) ==> start < j <= s@.len() && wf_fields(fs.deep_view()),
    decreases s@.len() - start,
{
    let j = skip_ws_at(s, start);
    if j >= s.len() {
        return Err(ParseError { kind: ErrorKind::Syntax, pos: s.len() });
    }
    if s[j] == '}' {
        return Ok((acc, j + 1));
    }
    match parse_chain_field(s, j) {
        Err(er) => Err(er),
        Ok((f, p)) => {
            let ghost fv = f.deep_view();
            let mut acc2 = acc;
            acc2.push(f);
            proof {
                assert(acc2.deep_view() =~= acc.deep_view().push(fv));
            }
            if p < s.len() && s[p] == ';' {
                parse_chain_fields(s, p + 1, acc2)
            } else if p < s.len() && s[p] == '}' {
                Ok((acc2, p + 1))
            } else {
                Err(ParseError { kind: ErrorKind::Syntax, pos: p })
            }
        },
    }
}

// ---------------------------------------------------------------------------
// Entity declarations
// ---------------------------------------------------------------------------

/// Parses a whole entity declaration:
/// `name [<generics>] '=>' '{' fields '}'`, with nothing but
/// whitespace after it.
pub open spec fn spec_parse_chain(s: Seq<char>) -> Result<ChainV, ParseErrorV> {
    let i = skip_ws(s, 0);
    let e = ident_end(s, i);
    if !(0 <= i < e <= s.len()) {
        Err(syn_err(i))
    } else {
        let name = s.subrange(i, e);
        let g = skip_ws(s, e);
        let gen_res = if g < s.len() && s[g] == '<' {
            spec_generics_items(s, g + 1, Seq::empty())
        } else {
            Ok((Seq::empty(), g))
        };
        match gen_res {
            Err(er) => Err(er),
            Ok((gens, g2)) => {
                let a = skip_ws(s, g2);
                if !(a + 1 < s.len() && s[a] == '=' && s[a + 1] == '>') {
                    Err(syn_err(a))
                } else {
                    let b = skip_ws(s, a + 2);
                    if !(b < s.len() && s[b] == '{') {
                        Err(syn_err(b))
                    } else {
                        match spec_chain_fields(s, b + 1, Seq::empty()) {
                            Err(er) => Err(er),
                            Ok((fields, q2)) => {
                                let r = skip_ws(s, q2);
                                if r == s.len() {
                                    Ok(ChainV { name, generics: gens, fields })
                                } else {
                                    Err(syn_err(r))
                                }
                            },
                        }
                    }
                }
            },
        }
    }
}

impl Chain {
    /// Parses one entity declaration, returning its description or the
    /// first diagnostic.
    pub fn parse(src: &str) -> (r: Result<Chain, ParseError>)
        ensures
            decl_view(r) == spec_parse_chain(src@),
            r matches Ok(e) ==> wf_chain(e.deep_view()),
    {
        let s = str_chars(src);
        let i = skip_ws_at(&s, 0);
        let e = ident_end_at(&s, i);
        if e == i {
            return Err(ParseError { kind: ErrorKind::Syntax, pos: i });
        }
        let name = sub_string(&s, i, e);
        let g = skip_ws_at(&s, e);
        let empty: Vec<String> = Vec::new();
        proof {
            assert(empty.deep_view() =~= Seq::<Seq<char>>::empty());
        }
        let gen_res = if g < s.len() && s[g] == '<' {
            generics_items(&s, g + 1, empty)
        } else {
            Ok((empty, g))
        };
        let (gens, g2) = match gen_res {
            Err(er) => {
                return Err(er);
            },
            Ok(p) => p,
        };
        let a = skip_ws_at(&s, g2);
        if !(a < s.len() && a + 1 < s.len() && s[a] == '=' && s[a + 1] == '>') {
            return Err(ParseError { kind: ErrorKind::Syntax, pos: a });
        }
        let b = skip_ws_at(&s, a + 2);
        if !(b < s.len() && s[b] == '{') {
            return Err(ParseError { kind: ErrorKind::Syntax, pos: b });
        }
        let empty_f: Vec<ChainField> = Vec::new();
        proof {
            assert(empty_f.deep_view() =~= Seq::<ChainFieldV>::empty());
        }
        let (fields, q2) = match parse_chain_fields(&s, b + 1, empty_f) {
            Err(er) => {
                return Err(er);
            },
            Ok(p) => p,
        };
        let r2 = skip_ws_at(&s, q2);
        if r2 == s.len() {
            Ok(Chain { name, generics: gens, fields })
        } else {
            Err(ParseError { kind: ErrorKind::Syntax, pos: r2 })
        }
    }
}

// ---------------------------------------------------------------------------
// Import lists
// ---------------------------------------------------------------------------

/// Parses `path (',' path)*` up to the end of the text; a trailing
/// comma is accepted, and an empty text yields an empty list.
pub open spec fn spec_use_paths(s: Seq<char>, i: int, acc: Seq<ChainPathV>) -> Result<
    (Seq<ChainPathV>, int),
    ParseErrorV,
>
    decreases s.len() - i,
{
    let j = skip_ws(s, i);
    if !(0 <= i <= j <= s.len()) {
        Err(syn_err(j))
    } else if j == s.len() {
        Ok((acc, j))
    } else {
        match spec_parse_path(s, j) {
            Err(er) => Err(er),
            Ok((p, k)) => {
                let acc2 = acc.push(p);
                let m = skip_ws(s, k);
                if m >= s.len() {
                    Ok((acc2, s.len() as int))
                } else if s[m] == ',' && i < m {
                    spec_use_paths(s, m + 1, acc2)
                } else {
                    Err(syn_err(m))
                }
            },
        }
    }
}

impl UseChains {
    /// Parses one import list, returning the referenced paths or the
    /// first diagnostic.
    pub fn parse(src: &str) -> (r: Result<UseChains, ParseError>)
        ensures
            decl_view(r) == match spec_use_paths(src@, 0, Seq::empty()) {
                Ok((ps, _)) => Ok(UseChainsV { paths: ps }),
                Err(er) => Err::<UseChainsV, ParseErrorV>(er),
            },
            r matches Ok(u) ==> wf_use_chains(u.deep_view()),
    {
        let s = str_chars(src);
        let empty: Vec<ChainPath> = Vec::new();
        proof {
            assert(empty.deep_view() =~= Seq::<ChainPathV>::empty());
        }
        match use_paths(&s, 0, empty) {
            Err(er) => Err(er),
            Ok((ps, _)) => Ok(UseChains(ps)),
        }
    }
}

/// Executable twin of [`spec_use_paths`].
fn use_paths(s: &Vec<char>, i: usize, acc: Vec<ChainPath>) -> (r: Result<
    (Vec<ChainPath>, usize),
    ParseError,
>)
    requires
        i <= s@.len(),
        forall|t: int| 0 <= t < acc.deep_view().len() ==> wf_path(#[trigger] acc.deep_view()[t]),
    ensures
        step_view(r) == spec_use_paths(s@, i as int, acc.deep_view()),
        r matches Ok((ps, _)) ==> forall|t: int|
            0 <= t < ps.deep_view().len() ==> wf_path(#[trigger] ps.deep_view()[t]),
    decreases s@.len() - i,
{
    let j = skip_ws_at(s, i);
    if j == s.len() {
        return Ok((acc, j));
    }
    match parse_path(s, j) {
        Err(er) => Err(er),
        Ok((p, k)) => {
            let ghost pv = p.deep_view();
            let mut acc2 = acc;
            acc2.push(p);
            proof {
                assert(acc2.deep_view() =~= acc.deep_view().push(pv));
            }
            let m = skip_ws_at(s, k);
            if m >= s.len() {
                Ok((acc2, s.len()))
            } else if s[m] == ',' {
                use_paths(s, m + 1, acc2)
            } else {
                Err(ParseError { kind: ErrorKind::Syntax, pos: m })
            }
        },
    }
}

// ---------------------------------------------------------------------------
// Manual-binding blocks
// ---------------------------------------------------------------------------

/// Parses the items of a manual-binding block, starting just past the
/// opening `{`: each item is a fully bodied `fn`, then `in path`, then
/// an optional `;`. The block ends at the matching `}`.
pub open spec fn spec_impl_items(s: Seq<char>, start: int, acc: Seq<ImplChainV>) -> Result<
    (Seq<ImplChainV>, int),
    ParseErrorV,
>
    decreases s.len() - start,
{
    let j = skip_ws(s, start);
    if !(0 <= start <= j < s.len()) {
        Err(syn_err(s.len() as int))
    } else if s[j] == '}' {
        Ok((acc, j + 1))
    } else {
        let e = ident_end(s, j);
        if !(j < e <= s.len() && s.subrange(j, e) == "fn"@) {
            Err(syn_err(j))
        } else {
            let p = scan_raw(s, j, ScanMode::Sig, 0);
            if !(j < p < s.len()) {
                Err(syn_err(s.len() as int))
            } else if s[p] == ';' || s[p] == '}' {
                Err(syn_err(p))
            } else {
                let be = scan_close(s, p + 1, ScanMode::Ty, 1);
                if !(p + 1 < be <= s.len() && s[be - 1] == '}') {
                    Err(syn_err(p))
                } else {
                    let func = s.subrange(j, be);
                    let m = skip_ws(s, be);
                    let e2 = ident_end(s, m);
                    if !(0 <= m < e2 <= s.len() && s.subrange(m, e2) == "in"@) {
                        Err(syn_err(m))
                    } else {
                        match spec_parse_path(s, skip_ws(s, e2)) {
                            Err(er) => Err(er),
                            Ok((chain, k)) => {
                                let acc2 = acc.push(ImplChainV { func, chain });
                                let q = skip_ws(s, k);
                                let q2 = if q < s.len() && s[q] == ';' {
                                    q + 1
                                } else {
                                    q
                                };
                                if start < q2 <= s.len() {
                                    spec_impl_items(s, q2, acc2)
                                } else {
                                    Err(syn_err(q2))
                                }
                            },
                        }
                    }
                }
            }
        }
    }
}

/// Executable twin of [`spec_impl_items`].
fn impl_items(s: &Vec<char>, start: usize, acc: Vec<ImplChain>) -> (r: Result<
    (Vec<ImplChain>, usize),
    ParseError,
>)
    requires
        start <= s@.len(),
        forall|t: int| 0 <= t < acc.deep_view().len() ==> wf_path(
            #[trigger] acc.deep_view()[t].chain,
        ),
    ensures
        step_view(r) == spec_impl_items(s@, start as int, acc.deep_view()),
        r matches Ok((is, j)) ==> start < j <= s@.len() && (forall|t: int|
            0 <= t < is.deep_view().len() ==> wf_path(#[trigger] is.deep_view()[t].chain)),
    decreases s@.len() - start,
{
    let j = skip_ws_at(s, start);
    if j >= s.len() {
        return Err(ParseError { kind: ErrorKind::Syntax, pos: s.len() });
    }
    if s[j] == '}' {
        return Ok((acc, j + 1));
    }
    let e = ident_end_at(s, j);
    if !(j < e && region_eq_str(s, j, e, "fn")) {
        return Err(ParseError { kind: ErrorKind::Syntax, pos: j });
    }
    let p = scan_raw_at(s, j, ScanMode::Sig, 0);
    proof {
        assert(is_ident_char(s@[j as int]));
        assert(p != j);
    }
    if p >= s.len() {
        return Err(ParseError { kind: ErrorKind::Syntax, pos: s.len() });
    }
    if s[p] == ';' || s[p] == '}' {
        return Err(ParseError { kind: ErrorKind::Syntax, pos: p });
    }
    let be = scan_close_at(s, p + 1, ScanMode::Ty, 1);
    if !(p + 1 < be && be - 1 < s.len() && s[be - 1] == '}') {
        return Err(ParseError { kind: ErrorKind::Syntax, pos: p });
    }
    let func = sub_string(s, j, be);
    let m = skip_ws_at(s, be);
    let e2 = ident_end_at(s, m);
    if !(m < e2 && region_eq_str(s, m, e2, "in")) {
        return Err(ParseError { kind: ErrorKind::Syntax, pos: m });
    }
    let pk = skip_ws_at(s, e2);
    match parse_path(s, pk) {
        Err(er) => Err(er),
        Ok((chain, k)) => {
            let item = ImplChain { func, chain };
            let ghost iv = item.deep_view();
            let mut acc2 = acc;
            acc2.push(item);
            proof {
                assert(acc2.deep_view() =~= acc.deep_view().push(iv));
            }
            let q = skip_ws_at(s, k);
            let q2: usize = if q < s.len() && s[q] == ';' {
                q + 1
            } else {
                q
            };
            impl_items(s, q2, acc2)
        },
    }
}

/// Parses a whole manual-binding declaration:
/// `type '=>' '{' items '}' ['where' '<' constraints '>']`, with
/// nothing but whitespace after it.
pub open spec fn spec_parse_impl_chains(s: Seq<char>) -> Result<ImplChainsV, ParseErrorV> {
    let j = skip_ws(s, 0);
    let p = scan_raw(s, j, ScanMode::Target, 0);
    let t = trim_end(s, j, p);
    if !(0 <= j < t <= p && p + 1 < s.len() && s[p] == '=' && s[p + 1] == '>') {
        Err(syn_err(p))
    } else {
        let ty = s.subrange(j, t);
        let b = skip_ws(s, p + 2);
        if !(b < s.len() && s[b] == '{') {
            Err(syn_err(b))
        } else {
            match spec_impl_items(s, b + 1, Seq::empty()) {
                Err(er) => Err(er),
                Ok((impls, q)) => {
                    let w = skip_ws(s, q);
                    if w == s.len() {
                        Ok(ImplChainsV { ty, impls, where_clause: None })
                    } else {
                        let e2 = ident_end(s, w);
                        if !(0 <= w < e2 <= s.len() && s.subrange(w, e2) == "where"@) {
                            Err(syn_err(w))
                        } else {
                            let v = skip_ws(s, e2);
                            if !(v < s.len() && s[v] == '<') {
                                Err(syn_err(v))
                            } else {
                                let ce = scan_close(s, v + 1, ScanMode::Generic, 1);
                                if !(v + 1 < ce <= s.len() && s[ce - 1] == '>') {
                                    Err(syn_err(v))
                                } else {
                                    let rr = skip_ws(s, ce);
                                    if rr == s.len() {
                                        Ok(
                                            ImplChainsV {
                                                ty,
                                                impls,
                                                where_clause: Some(s.subrange(v, ce)),
                                            },
                                        )
                                    } else {
                                        Err(syn_err(rr))
                                    }
                                }
                            }
                        }
                    }
                },
            }
        }
    }
}

impl ImplChains {
    /// Parses one manual-binding declaration, returning its
    /// description or the first diagnostic.
    pub fn parse(src: &str) -> (r: Result<ImplChains, ParseError>)
        ensures
            decl_view(r) == spec_parse_impl_chains(src@),
            r matches Ok(ic) ==> wf_impl_chains(ic.deep_view()),
    {
        let s = str_chars(src);
        let j = skip_ws_at(&s, 0);
        let p = scan_raw_at(&s, j, ScanMode::Target, 0);
        let t = trim_end_at(&s, j, p);
        if !(j < t && p < s.len() && p + 1 < s.len() && s[p] == '=' && s[p + 1] == '>') {
            return Err(ParseError { kind: ErrorKind::Syntax, pos: p });
        }
        let ty = sub_string(&s, j, t);
        let b = skip_ws_at(&s, p + 2);
        if !(b < s.len() && s[b] == '{') {
            return Err(ParseError { kind: ErrorKind::Syntax, pos: b });
        }
        let empty: Vec<ImplChain> = Vec::new();
        proof {
            assert(empty.deep_view() =~= Seq::<ImplChainV>::empty());
        }
        let (impls, q) = match impl_items(&s, b + 1, empty) {
            Err(er) => {
                return Err(er);
            },
            Ok(r0) => r0,
        };
        let w = skip_ws_at(&s, q);
        if w == s.len() {
            return Ok(ImplChains { ty, impls, where_clause: None });
        }
        let e2 = ident_end_at(&s, w);
        if !(w < e2 && region_eq_str(&s, w, e2, "where")) {
            return Err(ParseError { kind: ErrorKind::Syntax, pos: w });
        }
        let v = skip_ws_at(&s, e2);
        if !(v < s.len() && s[v] == '<') {
            return Err(ParseError { kind: ErrorKind::Syntax, pos: v });
        }
        let ce = scan_close_at(&s, v + 1, ScanMode::Generic, 1);
        if !(v + 1 < ce && ce - 1 < s.len() && s[ce - 1] == '>') {
            return Err(ParseError { kind: ErrorKind::Syntax, pos: v });
        }
        let rr = skip_ws_at(&s, ce);
        if rr == s.len() {
            let wc = sub_string(&s, v, ce);
            Ok(ImplChains { ty, impls, where_clause: Some(wc) })
        } else {
            Err(ParseError { kind: ErrorKind::Syntax, pos: rr })
        }
    }
}

} // verus!
