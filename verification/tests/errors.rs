// Each diagnostic kind, with the offset it points at: malformed
// declarations, contract operations carrying a body, and disallowed
// visibility markers — at parse time for mutable and static fields,
// at generation time for contract-tagged value fields.

use typechain::ast::{ErrorKind, ParseError};
use typechain::{chain, chainlink, impl_chains, use_chains};

#[test]
fn test_syntax_error_unknown_keyword() {
    let err = chainlink("Foo => { konst x: u32; }").unwrap_err();
    assert_eq!(err, ParseError { kind: ErrorKind::Syntax, pos: 9 });
}

#[test]
fn test_syntax_error_unterminated_block() {
    let err = chainlink("Foo => { const x: u32").unwrap_err();
    assert_eq!(err, ParseError { kind: ErrorKind::Syntax, pos: 21 });
}

#[test]
fn test_syntax_error_missing_arrow() {
    let err = chain("Foo { const x: u32; }").unwrap_err();
    assert_eq!(err.kind, ErrorKind::Syntax);
    assert_eq!(err.pos, 4);
}

#[test]
fn test_default_body_rejected() {
    let err = chainlink("Foo => { fn f(&self) -> u32 { 1 } }").unwrap_err();
    assert_eq!(err, ParseError { kind: ErrorKind::DefaultBody, pos: 28 });
}

#[test]
fn test_visibility_error_mut_field() {
    let err = chain("Foo => { pub mut x: u32; }").unwrap_err();
    assert_eq!(err, ParseError { kind: ErrorKind::Visibility, pos: 9 });
}

#[test]
fn test_visibility_error_static_field() {
    let err = chain("Foo => { pub static x: u32 = 1; }").unwrap_err();
    assert_eq!(err, ParseError { kind: ErrorKind::Visibility, pos: 9 });
}

#[test]
fn test_visibility_error_tagged_const() {
    let err = chain("Bar => { @Foo pub const x: u32; }").unwrap_err();
    assert_eq!(err, ParseError { kind: ErrorKind::Visibility, pos: 14 });
}

#[test]
fn test_untagged_public_const_allowed() {
    let generated = chain("Bar => { pub const x: u32; }").unwrap();
    assert_eq!(generated, "pub struct Bar {\n    pub x: u32,\n}\n");
}

#[test]
fn test_impl_chains_body_required() {
    let err = impl_chains("T => { fn f(&self) -> u32; in C; }").unwrap_err();
    assert_eq!(err.kind, ErrorKind::Syntax);
}

#[test]
fn test_use_chains_bad_separator() {
    let err = use_chains("a::B c::D").unwrap_err();
    assert_eq!(err.kind, ErrorKind::Syntax);
    assert_eq!(err.pos, 5);
}
