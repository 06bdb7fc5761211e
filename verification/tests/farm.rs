// The heterogeneous-collection scenario: a contract `Living{name}`,
// entities `Farmer`, `FarmAnimal` and `WildAnimal` all backing it,
// the animals also backing `Animal{legs}`. An untagged field with an
// explicit marker (`pub age`) stays an ordinary public record field.
// The runtime half drives all three kinds through the alias handles.

use typechain::{chain, chainlink, use_chains};

pub trait LivingChainlink {
    fn name(&self) -> &String;
}

pub type Living = dyn LivingChainlink;

pub trait AnimalChainlink {
    fn legs(&self) -> &u8;
}

pub type Animal = dyn AnimalChainlink;

pub struct Farmer {
    name: String,
    pub age: u8,
}

impl LivingChainlink for Farmer {
    fn name(&self) -> &String {
        &self.name
    }
}

impl Farmer {
    pub fn new(name: &str, age: u8) -> Self {
        Self { name: name.to_string(), age }
    }
}

pub struct FarmAnimal {
    name: String,
    legs: u8,
}

impl LivingChainlink for FarmAnimal {
    fn name(&self) -> &String {
        &self.name
    }
}

impl AnimalChainlink for FarmAnimal {
    fn legs(&self) -> &u8 {
        &self.legs
    }
}

impl FarmAnimal {
    pub fn new(name: &str, legs: u8) -> Self {
        Self { name: name.to_string(), legs }
    }
}

pub struct WildAnimal {
    name: String,
    legs: u8,
}

impl LivingChainlink for WildAnimal {
    fn name(&self) -> &String {
        &self.name
    }
}

impl AnimalChainlink for WildAnimal {
    fn legs(&self) -> &u8 {
        &self.legs
    }
}

impl WildAnimal {
    pub fn new(name: &str, legs: u8) -> Self {
        Self { name: name.to_string(), legs }
    }
}

#[test]
fn test_farm() {
    let generated = chainlink("Living => {\n    const name: String;\n}").unwrap();
    assert_eq!(
        generated,
        "pub trait LivingChainlink {\n    fn name(&self) -> &String;\n}\n\npub type Living = dyn LivingChainlink;\n"
    );

    let generated = chainlink("Animal => {\n    const legs: u8;\n}").unwrap();
    assert_eq!(
        generated,
        "pub trait AnimalChainlink {\n    fn legs(&self) -> &u8;\n}\n\npub type Animal = dyn AnimalChainlink;\n"
    );

    let generated = chain(
        "Farmer => {\n    @Living\n    const name: String;\n\n    pub const age: u8;\n}",
    )
    .unwrap();
    assert_eq!(
        generated,
        "pub struct Farmer {\n    name: String,\n    pub age: u8,\n}\n\nimpl LivingChainlink for Farmer {\n    fn name(&self) -> &String {\n        &self.name\n    }\n}\n"
    );

    let generated = chain(
        "FarmAnimal => {\n    @Living\n    const name: String;\n\n    @Animal\n    const legs: u8;\n}",
    )
    .unwrap();
    assert_eq!(
        generated,
        "pub struct FarmAnimal {\n    name: String,\n    legs: u8,\n}\n\nimpl LivingChainlink for FarmAnimal {\n    fn name(&self) -> &String {\n        &self.name\n    }\n}\n\nimpl AnimalChainlink for FarmAnimal {\n    fn legs(&self) -> &u8 {\n        &self.legs\n    }\n}\n"
    );

    let generated = use_chains("types::Living,\n    types::Animal").unwrap();
    assert_eq!(
        generated,
        "use types::LivingChainlink;\nuse types::Living;\nuse types::AnimalChainlink;\nuse types::Animal;\n"
    );

    let farmer = Farmer::new("John", 42);

    let animals: Vec<Box<Animal>> = vec![
        Box::new(FarmAnimal::new("Cow", 4)),
        Box::new(WildAnimal::new("Wolf", 4)),
    ];

    for animal in animals {
        assert_eq!(*animal.legs(), 4);
    }

    assert_eq!(farmer.name(), "John");
    assert_eq!(farmer.age, 42);

    let _ = vec![
        Box::new(farmer) as Box<Living>,
        Box::new(FarmAnimal::new("Cow", 4)) as Box<Living>,
        Box::new(WildAnimal::new("Wolf", 4)) as Box<Living>,
    ];
}
