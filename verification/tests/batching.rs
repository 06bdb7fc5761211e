// The all-or-nothing batch: a clean batch yields every declaration,
// separated by blank lines; one diagnostic anywhere makes the batch
// dirty, and a dirty batch yields all its diagnostics and none of its
// output.

use typechain::ast::ErrorKind;
use typechain::batch::Generator;

#[test]
fn test_batch_joins_clean_output() {
    let mut g = Generator::new();
    g.add_chainlink("Foo => { const x: u32; }");
    g.add_chain("Bar => { @Foo const x: u32; }");
    let out = g.finish().unwrap();
    assert_eq!(
        out,
        "pub trait FooChainlink {\n    fn x(&self) -> &u32;\n}\n\npub type Foo = dyn FooChainlink;\n\npub struct Bar {\n    x: u32,\n}\n\nimpl FooChainlink for Bar {\n    fn x(&self) -> &u32 {\n        &self.x\n    }\n}\n"
    );
}

#[test]
fn test_batch_dirty_withholds_output() {
    let mut g = Generator::new();
    g.add_chainlink("Foo => { const x: u32; }");
    g.add_chain("Bar => { @Foo pub const x: u32; }");
    g.add_use_chains("Foo");
    let errs = g.finish().unwrap_err();
    assert_eq!(errs.len(), 1);
    assert_eq!(errs[0].kind, ErrorKind::Visibility);
}

#[test]
fn test_batch_empty() {
    let g = Generator::new();
    assert_eq!(g.finish().unwrap(), "");
}

#[test]
fn test_batch_collects_all_diagnostics() {
    let mut g = Generator::new();
    g.add_chainlink("=>");
    g.add_impl_chains("T => { fn f(&self) -> u32; in C; }");
    let errs = g.finish().unwrap_err();
    assert_eq!(errs.len(), 2);
    assert_eq!(errs[0].kind, ErrorKind::Syntax);
    assert_eq!(errs[1].kind, ErrorKind::Syntax);
}
