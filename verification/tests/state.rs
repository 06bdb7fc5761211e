// The mutable-accessor scenario: a contract `State<T>` with one
// mutable member, an entity `BasicState<T>` backing it. The test
// checks the generated declarations character for character, and runs
// the scenario against the expansion written out below: reading
// `value()` yields a reference to the stored value, writing through
// that reference is observed by the next read.

use typechain::{chain, chainlink};

pub trait StateChainlink<T> {
    fn value(&mut self) -> &mut T;
}

pub type State<T> = dyn StateChainlink<T>;

pub struct BasicState<T> {
    value: T,
}

impl<T> StateChainlink<T> for BasicState<T> {
    fn value(&mut self) -> &mut T {
        &mut self.value
    }
}

impl<T> BasicState<T> {
    pub fn new(value: T) -> Self {
        Self { value }
    }
}

#[test]
fn test_state() {
    let generated = chainlink("State<T> => {\n    mut value: T;\n}").unwrap();
    assert_eq!(
        generated,
        "pub trait StateChainlink<T> {\n    fn value(&mut self) -> &mut T;\n}\n\npub type State<T> = dyn StateChainlink<T>;\n"
    );

    let generated = chain("BasicState<T> => {\n    @State<T>\n    mut value: T;\n}").unwrap();
    assert_eq!(
        generated,
        "pub struct BasicState<T> {\n    value: T,\n}\n\nimpl<T> StateChainlink<T> for BasicState<T> {\n    fn value(&mut self) -> &mut T {\n        &mut self.value\n    }\n}\n"
    );

    let mut state = BasicState::new(0);

    assert_eq!(state.value(), &0);

    *state.value() = 1;

    assert_eq!(state.value(), &1);
}
