// Exact generated text for the remaining synthesis shapes: empty
// contracts, contract extension, static members, multi-contract
// fan-out, import lists, and manual bindings without a constraint
// clause.

use typechain::{chain, chainlink, impl_chains, use_chains};

#[test]
fn test_empty_contract() {
    let generated = chainlink("Empty => {}").unwrap();
    assert_eq!(
        generated,
        "pub trait EmptyChainlink {\n}\n\npub type Empty = dyn EmptyChainlink;\n"
    );
}

#[test]
fn test_contract_extends_parents() {
    let generated = chainlink("Sub: Base + other::More => {\n    const x: u32;\n}").unwrap();
    assert_eq!(
        generated,
        "pub trait SubChainlink: BaseChainlink + other::MoreChainlink {\n    fn x(&self) -> &u32;\n}\n\npub type Sub = dyn SubChainlink;\n"
    );
}

#[test]
fn test_static_member_contract() {
    let generated = chainlink("HasTags => {\n    static tags: Vec<&'static str>;\n}").unwrap();
    assert_eq!(
        generated,
        "pub trait HasTagsChainlink {\n    fn tags() -> &'static Vec<&'static str>;\n}\n\npub type HasTags = dyn HasTagsChainlink;\n"
    );
}

#[test]
fn test_multi_tag_fanout() {
    let generated = chain("Dual => {\n    @A\n    @B\n    const x: u32;\n}").unwrap();
    assert_eq!(
        generated,
        "pub struct Dual {\n    x: u32,\n}\n\nimpl AChainlink for Dual {\n    fn x(&self) -> &u32 {\n        &self.x\n    }\n}\n\nimpl BChainlink for Dual {\n    fn x(&self) -> &u32 {\n        &self.x\n    }\n}\n"
    );
}

#[test]
fn test_shared_tag_single_block() {
    let generated = chain(
        "Pair => {\n    @Coords\n    const x: i64;\n\n    @Coords\n    const y: i64;\n}",
    )
    .unwrap();
    assert_eq!(
        generated,
        "pub struct Pair {\n    x: i64,\n    y: i64,\n}\n\nimpl CoordsChainlink for Pair {\n    fn x(&self) -> &i64 {\n        &self.x\n    }\n    fn y(&self) -> &i64 {\n        &self.y\n    }\n}\n"
    );
}

#[test]
fn test_empty_entity() {
    let generated = chain("Unit => {}").unwrap();
    assert_eq!(generated, "pub struct Unit {\n}\n");
}

#[test]
fn test_use_chains_empty() {
    let generated = use_chains("").unwrap();
    assert_eq!(generated, "");
}

#[test]
fn test_use_chains_trailing_comma() {
    let generated = use_chains("a::B,").unwrap();
    assert_eq!(generated, "use a::BChainlink;\nuse a::B;\n");
}

#[test]
fn test_impl_chains_no_where_clause() {
    let generated = impl_chains(
        "Wrapper => {\n    fn id(&self) -> u32 {\n        self.0\n    } in Ident;\n}",
    )
    .unwrap();
    assert_eq!(
        generated,
        "impl IdentChainlink for Wrapper {\n    fn id(&self) -> u32 {\n        self.0\n    }\n}\n"
    );
}

#[test]
fn test_impl_chains_two_contracts() {
    let generated = impl_chains(
        "W => {\n    fn a(&self) -> u32 {\n        1\n    } in First;\n    fn b(&self) -> u32 {\n        2\n    } in Second;\n}",
    )
    .unwrap();
    assert_eq!(
        generated,
        "impl FirstChainlink for W {\n    fn a(&self) -> u32 {\n        1\n    }\n}\n\nimpl SecondChainlink for W {\n    fn b(&self) -> u32 {\n        2\n    }\n}\n"
    );
}

#[test]
fn test_mangling_keeps_leading_segments() {
    let generated = use_chains("deep::nested::Thing<T>").unwrap();
    assert_eq!(
        generated,
        "use deep::nested::ThingChainlink<T>;\nuse deep::nested::Thing<T>;\n"
    );
}
