//! Character-level scanning over declaration text.
//!
//! The parser works on a `Vec<char>` of the declaration source. This
//! module holds the scanners it is built from: whitespace skipping,
//! identifier runs, and raw-region scanning for the opaque parts of a
//! declaration (types, expressions, signatures, bodies), which run to
//! a stopping character at bracket depth zero. Every executable
//! scanner returns exactly what its specification twin computes.

use vstd::prelude::*;

verus! {

// ---------------------------------------------------------------------------
// Character classes
// ---------------------------------------------------------------------------

/// Whitespace accepted between tokens.
pub open spec fn is_ws(c: char) -> bool {
    c == ' ' || c == '\t' || c == '\n' || c == '\r'
}

/// Characters that may start an identifier.
pub open spec fn is_ident_start(c: char) -> bool {
    ('a' <= c && c <= 'z') || ('A' <= c && c <= 'Z') || c == '_'
}

/// Characters that may continue an identifier.
pub open spec fn is_ident_char(c: char) -> bool {
    is_ident_start(c) || ('0' <= c && c <= '9')
}

/// Executable twin of [`is_ws`].
pub fn ws_char(c: char) -> (b: bool)
    ensures
        b == is_ws(c),
{
    c == ' ' || c == '\t' || c == '\n' || c == '\r'
}

/// Executable twin of [`is_ident_start`].
pub fn ident_start_char(c: char) -> (b: bool)
    ensures
        b == is_ident_start(c),
{
    ('a' <= c && c <= 'z') || ('A' <= c && c <= 'Z') || c == '_'
}

/// Executable twin of [`is_ident_char`].
pub fn ident_char(c: char) -> (b: bool)
    ensures
        b == is_ident_char(c),
{
    ident_start_char(c) || ('0' <= c && c <= '9')
}

// ---------------------------------------------------------------------------
// Whitespace and identifiers
// ---------------------------------------------------------------------------

/// The first position at or after `i` holding a non-whitespace
/// character, or the end of the text.
pub open spec fn skip_ws(s: Seq<char>, i: int) -> int
    decreases s.len() - i,
{
    if 0 <= i < s.len() && is_ws(s[i]) {
        skip_ws(s, i + 1)
    } else {
        i
    }
}

/// Executable twin of [`skip_ws`].
pub fn skip_ws_at(s: &Vec<char>, i: usize) -> (j: usize)
    requires
        i <= s@.len(),
    ensures
        j as int == skip_ws(s@, i as int),
        i <= j <= s@.len(),
    decreases s@.len() - i,
{
    if i < s.len() && ws_char(s[i]) {
        skip_ws_at(s, i + 1)
    } else {
        i
    }
}

/// The end of the identifier run starting at `i`: the first position at
/// or after `i` holding no identifier character.
pub open spec fn ident_end(s: Seq<char>, i: int) -> int
    decreases s.len() - i,
{
    if 0 <= i < s.len() && is_ident_char(s[i]) {
        ident_end(s, i + 1)
    } else {
        i
    }
}

/// Executable twin of [`ident_end`].
pub fn ident_end_at(s: &Vec<char>, i: usize) -> (j: usize)
    requires
        i <= s@.len(),
    ensures
        j as int == ident_end(s@, i as int),
        i <= j <= s@.len(),
    decreases s@.len() - i,
{
    if i < s.len() && ident_char(s[i]) {
        ident_end_at(s, i + 1)
    } else {
        i
    }
}

/// Drops trailing whitespace: the least `e` with `start <= e <= end`
/// such that everything in `s[e..end]` is whitespace and `s[e - 1]`
/// (if within the region) is not.
pub open spec fn trim_end(s: Seq<char>, start: int, end: int) -> int
    decreases end,
{
    if start >= 0 && start < end && end <= s.len() && is_ws(s[end - 1]) {
        trim_end(s, start, end - 1)
    } else {
        end
    }
}

/// Executable twin of [`trim_end`].
pub fn trim_end_at(s: &Vec<char>, start: usize, end: usize) -> (e: usize)
    requires
        start <= end <= s@.len(),
    ensures
        e as int == trim_end(s@, start as int, end as int),
        start <= e <= end,
    decreases end,
{
    if start < end && ws_char(s[end - 1]) {
        trim_end_at(s, start, end - 1)
    } else {
        end
    }
}

// ---------------------------------------------------------------------------
// Raw regions
// ---------------------------------------------------------------------------

/// What a raw scan is looking for. Each mode names the stopping
/// characters recognized at bracket depth zero; brackets of any kind
/// are counted with a single depth, which is enough for well-formed
/// declarations and still terminates on malformed ones.
#[derive(Debug, Clone, Copy, PartialEq, Eq, Structural)]
pub enum ScanMode {
    /// A contract member's type: stop at `;` or `}`.
    Ty,
    /// An entity field's type: stop at `;`, `}` or `=`.
    FieldTy,
    /// A field initializer expression: stop at `;` or `}`.
    Expr,
    /// A function signature: stop at `;`, `{` or `}`.
    Sig,
    /// One generic parameter: stop at `,` or `>`; angles nest.
    Generic,
    /// A manual-binding target type: stop at `=`; angles nest.
    Target,
}

/// Whether `c` stops a scan in `mode` at depth zero.
pub open spec fn is_stop(mode: ScanMode, c: char) -> bool {
    match mode {
        ScanMode::Ty => c == ';' || c == '}',
        ScanMode::FieldTy => c == ';' || c == '}' || c == '=',
        ScanMode::Expr => c == ';' || c == '}',
        ScanMode::Sig => c == ';' || c == '{' || c == '}',
        ScanMode::Generic => c == ',' || c == '>',
        ScanMode::Target => c == '=',
    }
}

/// Whether angle brackets count towards the depth in `mode`.
pub open spec fn tracks_angles(mode: ScanMode) -> bool {
    mode == ScanMode::Generic || mode == ScanMode::Target
}

/// Whether `c` opens a bracket in `mode`.
pub open spec fn is_open(mode: ScanMode, c: char) -> bool {
    c == '(' || c == '[' || c == '{' || (tracks_angles(mode) && c == '<')
}

/// Whether `c` closes a bracket in `mode`.
pub open spec fn is_close(mode: ScanMode, c: char) -> bool {
    c == ')' || c == ']' || c == '}' || (tracks_angles(mode) && c == '>')
}

/// Executable twin of [`is_stop`].
pub fn stop_char(mode: ScanMode, c: char) -> (b: bool)
    ensures
        b == is_stop(mode, c),
{
    match mode {
        ScanMode::Ty => c == ';' || c == '}',
        ScanMode::FieldTy => c == ';' || c == '}' || c == '=',
        ScanMode::Expr => c == ';' || c == '}',
        ScanMode::Sig => c == ';' || c == '{' || c == '}',
        ScanMode::Generic => c == ',' || c == '>',
        ScanMode::Target => c == '=',
    }
}

/// Executable twin of [`tracks_angles`].
pub fn angle_mode(mode: ScanMode) -> (b: bool)
    ensures
        b == tracks_angles(mode),
{
    match mode {
        ScanMode::Generic => true,
        ScanMode::Target => true,
        _ => false,
    }
}

/// Executable twin of [`is_open`].
pub fn open_char(mode: ScanMode, c: char) -> (b: bool)
    ensures
        b == is_open(mode, c),
{
    c == '(' || c == '[' || c == '{' || (angle_mode(mode) && c == '<')
}

/// Executable twin of [`is_close`].
pub fn close_char(mode: ScanMode, c: char) -> (b: bool)
    ensures
        b == is_close(mode, c),
{
    c == ')' || c == ']' || c == '}' || (angle_mode(mode) && c == '>')
}

/// The position of the first stopping character for `mode` at bracket
/// depth zero, starting from `i` at depth `depth`, or the end of the
/// text if none occurs.
pub open spec fn scan_raw(s: Seq<char>, i: int, mode: ScanMode, depth: nat) -> int
    decreases s.len() - i,
{
    if !(0 <= i < s.len()) {
        s.len() as int
    } else {
        let c = s[i];
        if depth == 0 && is_stop(mode, c) {
            i
        } else {
            let d = if is_open(mode, c) {
                depth + 1
            } else if is_close(mode, c) && depth > 0 {
                (depth - 1) as nat
            } else {
                depth
            };
            scan_raw(s, i + 1, mode, d)
        }
    }
}

/// Executable twin of [`scan_raw`].
pub fn scan_raw_at(s: &Vec<char>, i: usize, mode: ScanMode, depth: usize) -> (j: usize)
    requires
        depth <= i <= s@.len(),
    ensures
        j as int == scan_raw(s@, i as int, mode, depth as nat),
        i <= j <= s@.len(),
        j == i && i < s@.len() ==> is_stop(mode, s@[i as int]),
    decreases s@.len() - i,
{
    if i >= s.len() {
        s.len()
    } else {
        let c = s[i];
        if depth == 0 && stop_char(mode, c) {
            i
        } else {
            let d: usize = if open_char(mode, c) {
                depth + 1
            } else if close_char(mode, c) && depth > 0 {
                depth - 1
            } else {
                depth
            };
            scan_raw_at(s, i + 1, mode, d)
        }
    }
}

/// The position just past the bracket that returns the depth to zero,
/// scanning from `i` at depth `depth`, or the end of the text if the
/// brackets never balance. Counts the same brackets as `mode`.
pub open spec fn scan_close(s: Seq<char>, i: int, mode: ScanMode, depth: nat) -> int
    decreases s.len() - i,
{
    if !(0 <= i < s.len()) {
        s.len() as int
    } else {
        let c = s[i];
        if is_close(mode, c) && depth <= 1 {
            i + 1
        } else {
            let d = if is_open(mode, c) {
                depth + 1
            } else if is_close(mode, c) {
                (depth - 1) as nat
            } else {
                depth
            };
            scan_close(s, i + 1, mode, d)
        }
    }
}

/// Executable twin of [`scan_close`].
pub fn scan_close_at(s: &Vec<char>, i: usize, mode: ScanMode, depth: usize) -> (j: usize)
    requires
        depth <= i <= s@.len(),
    ensures
        j as int == scan_close(s@, i as int, mode, depth as nat),
        i <= j <= s@.len(),
    decreases s@.len() - i,
{
    if i >= s.len() {
        s.len()
    } else {
        let c = s[i];
        if close_char(mode, c) && depth <= 1 {
            i + 1
        } else {
            let d: usize = if open_char(mode, c) {
                depth + 1
            } else if close_char(mode, c) {
                depth - 1
            } else {
                depth
            };
            scan_close_at(s, i + 1, mode, d)
        }
    }
}

// ---------------------------------------------------------------------------
// Text extraction
// ---------------------------------------------------------------------------

/// Copies `s[start..end]` into a fresh vector.
pub fn sub_chars(s: &Vec<char>, start: usize, end: usize) -> (r: Vec<char>)
    requires
        start <= end <= s@.len(),
    ensures
        r@ == s@.subrange(start as int, end as int),
{
    let mut r: Vec<char> = Vec::new();
    let mut k: usize = start;
    while k < end
        invariant
            start <= k <= end <= s@.len(),
            r@ == s@.subrange(start as int, k as int),
        decreases end - k,
    {
        r.push(s[k]);
        k = k + 1;
        proof {
            assert(r@ =~= s@.subrange(start as int, k as int));
        }
    }
    r
}

/// Collects the characters of `src` into a vector.
pub fn str_chars(src: &str) -> (r: Vec<char>)
    ensures
        r@ == src@,
{
    let n = src.unicode_len();
    let mut r: Vec<char> = Vec::new();
    let mut k: usize = 0;
    while k < n
        invariant
            k <= n,
            n == src@.len(),
            r@ == src@.subrange(0, k as int),
        decreases n - k,
    {
        r.push(src.get_char(k));
        k = k + 1;
        proof {
            assert(r@ =~= src@.subrange(0, k as int));
        }
    }
    proof {
        assert(r@ =~= src@);
    }
    r
}

/// Relies on `String`'s `FromIterator<char>` implementation: collecting
/// an iterator of characters builds the string of exactly those
/// characters, in order.
#[verifier::external_body]
pub fn chars_to_string(v: &Vec<char>) -> (r: String)
    ensures
        r@ == v@,
{
    v.iter().collect()
}

/// Copies `s[start..end]` out as a `String`.
pub fn sub_string(s: &Vec<char>, start: usize, end: usize) -> (r: String)
    requires
        start <= end <= s@.len(),
    ensures
        r@ == s@.subrange(start as int, end as int),
{
    let piece = sub_chars(s, start, end);
    chars_to_string(&piece)
}

/// Whether `s[start..end]` is exactly the text of `lit`.
pub fn region_eq_str(s: &Vec<char>, start: usize, end: usize, lit: &str) -> (b: bool)
    requires
        start <= end <= s@.len(),
    ensures
        b == (s@.subrange(start as int, end as int) == lit@),
{
    let n = lit.unicode_len();
    if end - start != n {
        proof {
            assert(s@.subrange(start as int, end as int).len() == end - start);
        }
        return false;
    }
    let mut k: usize = 0;
    while k < n
        invariant
            k <= n,
            n == lit@.len(),
            start + n == end,
            start <= end <= s@.len(),
            forall|m: int| 0 <= m < k ==> s@[start + m] == lit@[m],
        decreases n - k,
    {
        if s[start + k] != lit.get_char(k) {
            proof {
                assert(s@.subrange(start as int, end as int)[k as int] != lit@[k as int]);
            }
            return false;
        }
        k = k + 1;
    }
    proof {
        assert(s@.subrange(start as int, end as int) =~= lit@);
    }
    true
}

} // verus!
