use lessons::oop_pattern::Post;

#[test]
fn salad_is_replaced_by_fish() {
    let mut post = Post::new();
    post.add_text("I ate a salad for lunch today");

    let post = post.request_review();
    assert_eq!("I ate a salad for lunch today", post.review());

    let post = post.reject("Salad isn't available today");
    assert_eq!(
        "Make changes to 'I ate a salad for lunch today' as Salad isn't available today",
        post.get_feedback()
    );

    let post = post.replace_text("I ate fish at lunch");

    let post = post.approve();
    assert_eq!("I ate fish at lunch", post.content());
}

#[test]
fn first_text_is_reviewed() {
    let mut post = Post::new();
    post.add_text("first");
    assert_eq!(post.request_review().review(), "first");
}

#[test]
fn new_draft_is_empty() {
    assert_eq!(Post::new().request_review().review(), "");
}

#[test]
fn add_text_appends() {
    let mut post = Post::new();
    post.add_text("one, ");
    post.add_text("two");
    post.add_text("");
    assert_eq!(post.request_review().approve().content(), "one, two");
}

#[test]
fn feedback_quotes_content_and_changes() {
    let mut post = Post::new();
    post.add_text("a 'quoted' text");
    let post = post.request_review().reject("drop the ' as in it");
    let feedback = post.get_feedback();
    assert_eq!(
        feedback,
        "Make changes to 'a 'quoted' text' as drop the ' as in it"
    );
    assert!(feedback.contains("a 'quoted' text"));
    assert!(feedback.ends_with("drop the ' as in it"));
}

#[test]
fn feedback_on_nothing() {
    let post = Post::new().request_review().reject("");
    assert_eq!(post.get_feedback(), "Make changes to '' as ");
}

#[test]
fn replacement_overwrites() {
    let mut post = Post::new();
    post.add_text("old");
    let post = post.request_review().reject("too old");
    let post = post.replace_text("new");
    assert_eq!(post.review(), "new");
}

#[test]
fn approved_content_ignores_discarded_cycles() {
    let mut post = Post::new();
    post.add_text("v1");
    let post = post.request_review().reject("again");
    let post = post.replace_text("v2").reject("once more");
    assert_eq!(post.get_feedback(), "Make changes to 'v2' as once more");
    let post = post.replace_text("v3").approve();
    assert_eq!(post.content(), "v3");
    assert_eq!(post.content(), "v3");
}
