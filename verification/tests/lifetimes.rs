// Generic parameters that are lifetimes pass through synthesis
// unchanged, both in the contract's interface and in the entity's
// implementation.

use typechain::{chain, chainlink};

pub trait RefBoxChainlink<'a, T> {
    fn value(&self) -> &&'a T;
}

pub type RefBox<'a, T> = dyn RefBoxChainlink<'a, T>;

pub struct Basic<'a, T> {
    value: &'a T,
}

impl<'a, T> RefBoxChainlink<'a, T> for Basic<'a, T> {
    fn value(&self) -> &&'a T {
        &self.value
    }
}

#[test]
fn test_lifetimes() {
    let generated = chainlink("RefBox<'a, T> => {\n    const value: &'a T\n}").unwrap();
    assert_eq!(
        generated,
        "pub trait RefBoxChainlink<'a, T> {\n    fn value(&self) -> &&'a T;\n}\n\npub type RefBox<'a, T> = dyn RefBoxChainlink<'a, T>;\n"
    );

    let generated = chain("Basic<'a, T> => {\n    @RefBox<'a, T>\n    const value: &'a T\n}")
        .unwrap();
    assert_eq!(
        generated,
        "pub struct Basic<'a, T> {\n    value: &'a T,\n}\n\nimpl<'a, T> RefBoxChainlink<'a, T> for Basic<'a, T> {\n    fn value(&self) -> &&'a T {\n        &self.value\n    }\n}\n"
    );

    let val = 5;

    let basic = Basic { value: &val };

    assert_eq!(*basic.value(), &val);
}
