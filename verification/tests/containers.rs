// The manual-binding scenario: a contract `Container<T>` with two
// free-form operations, bound by hand to two externally defined types.
// The supplied bodies pass through synthesis verbatim, grouped into
// one implementation block per contract, under the given constraint
// clause. The runtime half drives both bindings through the alias
// handle.

use typechain::{chainlink, impl_chains};

pub trait ContainerChainlink<T> {
    fn get(&self) -> T;
    fn set(&mut self, value: T);
}

pub type Container<T> = dyn ContainerChainlink<T>;

impl<T: Clone + Copy> ContainerChainlink<T> for Box<T> {
    fn get(&self) -> T {
        **self
    }

    fn set(&mut self, value: T) {
        *self = Box::new(value);
    }
}

impl<T: Clone + Copy> ContainerChainlink<T> for Vec<T> {
    fn get(&self) -> T {
        self[0]
    }

    fn set(&mut self, value: T) {
        if self.is_empty() {
            self.push(value);
            return;
        }

        self[0] = value;
    }
}

#[test]
fn test_box() {
    let generated = chainlink(
        "Container<T> => {\n    fn get(&self) -> T;\n    fn set(&mut self, value: T);\n}",
    )
    .unwrap();
    assert_eq!(
        generated,
        "pub trait ContainerChainlink<T> {\n    fn get(&self) -> T;\n    fn set(&mut self, value: T);\n}\n\npub type Container<T> = dyn ContainerChainlink<T>;\n"
    );

    let generated = impl_chains(
        "Box<T> => {\n    fn get(&self) -> T {\n        **self\n    } in Container<T>;\n\n    fn set(&mut self, value: T) {\n        *self = Box::new(value);\n    } in Container<T>;\n} where <T: Clone + Copy>",
    )
    .unwrap();
    assert_eq!(
        generated,
        "impl<T: Clone + Copy> ContainerChainlink<T> for Box<T> {\n    fn get(&self) -> T {\n        **self\n    }\n    fn set(&mut self, value: T) {\n        *self = Box::new(value);\n    }\n}\n"
    );

    let mut my_box = Box::new(0u32);
    let mut my_vec = vec![0u32];

    let containers: Vec<&mut Container<_>> = vec![&mut my_box, &mut my_vec];

    for container in containers {
        container.set(1);
        assert_eq!(container.get(), 1);
    }

    assert_eq!(my_box, Box::new(1));
    assert_eq!(my_vec, vec![1]);
}
