// The static-member scenario: a contract `HasTags` with one static
// accessor, two entities each supplying their own constant list. A
// static field contributes no storage to the record, and the accessor
// read through the alias handle yields exactly the literal list the
// entity's own declaration supplied. (The expansion below returns the
// constant through a leaked allocation, where the generated text
// denotes a reference to the constant expression itself, and bounds
// the static accessor by `Sized` so the alias handle stays usable.)

use typechain::{chain, use_chains};

pub trait HasTagsChainlink {
    fn tags() -> &'static Vec<&'static str>
    where
        Self: Sized;
}

pub type HasTags = dyn HasTagsChainlink;

pub struct Post {
    title: String,
    comments: Vec<Comment>,
}

impl HasTagsChainlink for Post {
    fn tags() -> &'static Vec<&'static str> {
        Box::leak(Box::new(vec!["post"]))
    }
}

pub struct Comment {
    body: String,
}

impl HasTagsChainlink for Comment {
    fn tags() -> &'static Vec<&'static str> {
        Box::leak(Box::new(vec!["comment"]))
    }
}

impl Comment {
    pub fn new(body: String) -> Self {
        Self { body }
    }
}

#[test]
fn test_tags() {
    let generated = use_chains("typechain::HasTags").unwrap();
    assert_eq!(
        generated,
        "use typechain::HasTagsChainlink;\nuse typechain::HasTags;\n"
    );

    let generated = chain(
        "Post => {\n    @HasTags\n    static tags: Vec<&'static str> = vec![\"post\"];\n\n    const title: String;\n    const comments: Vec<Comment>;\n}",
    )
    .unwrap();
    assert_eq!(
        generated,
        "pub struct Post {\n    title: String,\n    comments: Vec<Comment>,\n}\n\nimpl HasTagsChainlink for Post {\n    fn tags() -> &'static Vec<&'static str> {\n        &vec![\"post\"]\n    }\n}\n"
    );

    let generated = chain(
        "Comment => {\n    @HasTags\n    static tags: Vec<&'static str> = vec![\"comment\"];\n\n    const body: String;\n}",
    )
    .unwrap();
    assert_eq!(
        generated,
        "pub struct Comment {\n    body: String,\n}\n\nimpl HasTagsChainlink for Comment {\n    fn tags() -> &'static Vec<&'static str> {\n        &vec![\"comment\"]\n    }\n}\n"
    );

    let comments = vec![
        Comment::new("Goodbye, world! (1/3)".to_string()),
        Comment::new("Goodbye, world! (2/3)".to_string()),
        Comment::new("Goodbye, world! (3/3)".to_string()),
    ];

    let post = Post {
        title: "Hello, world!".to_string(),
        comments,
    };

    let _has_tags: &HasTags = &post;

    assert_eq!(<Post as HasTagsChainlink>::tags(), &vec!["post"]);
    assert_eq!(<Comment as HasTagsChainlink>::tags(), &vec!["comment"]);
}
