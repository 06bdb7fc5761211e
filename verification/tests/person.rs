// Two contracts, three entities, a storage-only field: `Parent` and
// `Employer` satisfy both `Person` and `Adult`, `Child` only `Person`,
// and `Parent`'s untagged `children` field appears in the record but
// backs no accessor. The runtime half filters a heterogeneous
// collection of `Person` handles by name, independent of each
// element's concrete type.

use std::rc::Rc;

use typechain::{chain, chainlink};

pub trait PersonChainlink {
    fn name(&self) -> &String;
    fn age(&self) -> &u8;
}

pub type Person = dyn PersonChainlink;

pub trait AdultChainlink {
    fn job(&self) -> &String;
}

pub type Adult = dyn AdultChainlink;

pub struct Parent {
    name: String,
    age: u8,
    job: String,
    children: Vec<Rc<Person>>,
}

impl PersonChainlink for Parent {
    fn name(&self) -> &String {
        &self.name
    }

    fn age(&self) -> &u8 {
        &self.age
    }
}

impl AdultChainlink for Parent {
    fn job(&self) -> &String {
        &self.job
    }
}

pub struct Employer {
    name: String,
    age: u8,
    job: String,
}

impl PersonChainlink for Employer {
    fn name(&self) -> &String {
        &self.name
    }

    fn age(&self) -> &u8 {
        &self.age
    }
}

impl AdultChainlink for Employer {
    fn job(&self) -> &String {
        &self.job
    }
}

pub struct Child {
    name: String,
    age: u8,
    school: String,
}

impl PersonChainlink for Child {
    fn name(&self) -> &String {
        &self.name
    }

    fn age(&self) -> &u8 {
        &self.age
    }
}

#[test]
fn test_person() {
    let generated = chainlink("Person => {\n    const name: String;\n    const age: u8;\n}")
        .unwrap();
    assert_eq!(
        generated,
        "pub trait PersonChainlink {\n    fn name(&self) -> &String;\n    fn age(&self) -> &u8;\n}\n\npub type Person = dyn PersonChainlink;\n"
    );

    let generated = chainlink("Adult => {\n    const job: String;\n}").unwrap();
    assert_eq!(
        generated,
        "pub trait AdultChainlink {\n    fn job(&self) -> &String;\n}\n\npub type Adult = dyn AdultChainlink;\n"
    );

    let generated = chain(
        "Parent => {\n    @Person\n    const name: String;\n\n    @Person\n    const age: u8;\n\n    @Adult\n    const job: String;\n\n    const children: Vec<Rc<Person>>;\n}",
    )
    .unwrap();
    assert_eq!(
        generated,
        "pub struct Parent {\n    name: String,\n    age: u8,\n    job: String,\n    children: Vec<Rc<Person>>,\n}\n\nimpl PersonChainlink for Parent {\n    fn name(&self) -> &String {\n        &self.name\n    }\n    fn age(&self) -> &u8 {\n        &self.age\n    }\n}\n\nimpl AdultChainlink for Parent {\n    fn job(&self) -> &String {\n        &self.job\n    }\n}\n"
    );

    let generated = chain(
        "Employer => {\n    @Person\n    const name: String;\n\n    @Person\n    const age: u8;\n\n    @Adult\n    const job: String;\n}",
    )
    .unwrap();
    assert_eq!(
        generated,
        "pub struct Employer {\n    name: String,\n    age: u8,\n    job: String,\n}\n\nimpl PersonChainlink for Employer {\n    fn name(&self) -> &String {\n        &self.name\n    }\n    fn age(&self) -> &u8 {\n        &self.age\n    }\n}\n\nimpl AdultChainlink for Employer {\n    fn job(&self) -> &String {\n        &self.job\n    }\n}\n"
    );

    let generated = chain(
        "Child => {\n    @Person\n    const name: String;\n\n    @Person\n    const age: u8;\n\n    const school: String;\n}",
    )
    .unwrap();
    assert_eq!(
        generated,
        "pub struct Child {\n    name: String,\n    age: u8,\n    school: String,\n}\n\nimpl PersonChainlink for Child {\n    fn name(&self) -> &String {\n        &self.name\n    }\n    fn age(&self) -> &u8 {\n        &self.age\n    }\n}\n"
    );

    let child = Rc::new(Child {
        name: "John".to_string(),
        age: 10,
        school: "Elementary".to_string(),
    });

    let child2 = Rc::new(Child {
        name: "Jane".to_string(),
        age: 8,
        school: "Elementary".to_string(),
    });

    let employer = Employer {
        name: "Bob".to_string(),
        age: 45,
        job: "Software Engineer".to_string(),
    };

    let parent1: Rc<Parent> = Rc::new(Parent {
        name: "Dave".to_string(),
        age: 40,
        job: "Software Engineer".to_string(),
        children: vec![child.clone(), child2.clone()],
    });

    let parent2: Rc<Parent> = Rc::new(Parent {
        name: "Alice".to_string(),
        age: 40,
        job: "Software Engineer".to_string(),
        children: vec![child.clone(), child2.clone()],
    });

    let gparent = Parent {
        name: "George".to_string(),
        age: 70,
        job: "Retired".to_string(),
        children: vec![parent1.clone(), parent2.clone()],
    };

    let people: Vec<Rc<Person>> = vec![
        Rc::new(gparent),
        Rc::new(employer),
        child,
        child2,
        parent1,
        parent2,
    ];

    assert_eq!(people.iter().filter(|p| p.name() == "John").count(), 1);
}
